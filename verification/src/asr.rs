//! Speech recognition: between the browser, which sends sound, and the
//! recogniser, which sends back what was said.
use crate::frame::{
    self, build_frame, parse_frame, COMP_NONE, FLAG_SEQ_NEG, FLAG_SEQ_POS, MT_AUDIO_ONLY,
    MT_FULL_CLIENT, MT_FULL_SERVER, MT_SERVER_ERROR, SER_JSON, SER_NONE,
};
use crate::ids::{self, random_uuid};
use crate::json::{self, Json, JsonTree};
use crate::settings::{self, Settings};
use crate::text::{self, contains_text, decimal_text};
use vstd::prelude::*;

verus! {

/// What the browser is told. The kind is `partial`, `final`, `error` or
/// `ready`.
pub struct AsrClientEvent {
    pub kind: &'static str,
    pub text: String,
}

impl View for AsrClientEvent {
    type V = (Seq<char>, Seq<char>);

    open spec fn view(&self) -> (Seq<char>, Seq<char>) {
        (self.kind@, self.text@)
    }
}

/// The first thing that the recogniser is sent.
pub struct AsrConfig {
    pub user: AsrUser,
    pub audio: AsrAudio,
    pub request: AsrRequest,
}

pub struct AsrUser {
    pub uid: String,
}

pub struct AsrAudio {
    pub format: &'static str,
    pub rate: u32,
    pub bits: u32,
    pub channel: u32,
    pub codec: &'static str,
}

pub struct AsrRequest {
    pub model_name: String,
    pub enable_punc: bool,
    pub enable_itn: bool,
    pub enable_ddc: bool,
    pub show_utterances: bool,
}

/// The id that the recogniser goes by.
pub open spec fn app_id_of(vars: Map<Seq<char>, Seq<char>>) -> Option<Seq<char>> {
    settings::either(
        settings::set_value(vars, "VOLC_ASR_APP_ID"@),
        settings::set_value(vars, "VOLCENGINE_ASR_STREAM_APP_ID"@),
    )
}

/// The token that the recogniser asks for.
pub open spec fn token_of(vars: Map<Seq<char>, Seq<char>>) -> Option<Seq<char>> {
    settings::either(
        settings::set_value(vars, "VOLC_ASR_TOKEN"@),
        settings::set_value(vars, "VOLCENGINE_ASR_STREAM_API_KEY"@),
    )
}

/// Whether the recogniser can be used: it has an id and a token.
pub fn is_configured(settings: &Settings) -> (r: bool)
    ensures
        r == (app_id_of(settings@) is Some && token_of(settings@) is Some),
{
    (settings.var("VOLC_ASR_APP_ID").is_some() || settings.var(
        "VOLCENGINE_ASR_STREAM_APP_ID",
    ).is_some()) && (settings.var("VOLC_ASR_TOKEN").is_some() || settings.var(
        "VOLCENGINE_ASR_STREAM_API_KEY",
    ).is_some())
}

/// What is missing for a connection.
#[derive(Clone, Copy, Debug, PartialEq, Eq)]
pub enum AsrSetupError {
    NoAppId,
    NoToken,
}

impl AsrSetupError {
    /// The error in words.
    pub fn message(&self) -> (r: &'static str)
        ensures
            r@ == match *self {
                AsrSetupError::NoAppId => "asr_not_configured: VOLC_ASR_APP_ID 未设置"@,
                AsrSetupError::NoToken => "asr_not_configured: VOLC_ASR_TOKEN 未设置"@,
            },
    {
        match self {
            AsrSetupError::NoAppId => "asr_not_configured: VOLC_ASR_APP_ID 未设置",
            AsrSetupError::NoToken => "asr_not_configured: VOLC_ASR_TOKEN 未设置",
        }
    }
}

/// Where and as whom to connect.
pub struct AsrConnection {
    pub url: String,
    pub app_id: String,
    pub token: String,
    pub resource: String,
    pub model_name: String,
    pub request_id: String,
    pub connect_id: String,
}

/// The meaning of a connection's terms.
pub struct Connection {
    pub url: Seq<char>,
    pub app_id: Seq<char>,
    pub token: Seq<char>,
    pub resource: Seq<char>,
    pub model_name: Seq<char>,
    pub request_id: Seq<char>,
    pub connect_id: Seq<char>,
}

impl View for AsrConnection {
    type V = Connection;

    open spec fn view(&self) -> Connection {
        Connection {
            url: self.url@,
            app_id: self.app_id@,
            token: self.token@,
            resource: self.resource@,
            model_name: self.model_name@,
            request_id: self.request_id@,
            connect_id: self.connect_id@,
        }
    }
}

/// The terms of a connection, given the two identifiers drawn for it.
pub open spec fn connection_of(
    vars: Map<Seq<char>, Seq<char>>,
    user_id: u64,
    request_id: Seq<char>,
    connect_id: Seq<char>,
) -> Result<Connection, AsrSetupError> {
    match app_id_of(vars) {
        None => Err(AsrSetupError::NoAppId),
        Some(app_id) => match token_of(vars) {
            None => Err(AsrSetupError::NoToken),
            Some(token) => Ok(
                Connection {
                    url: settings::or_else(
                        settings::set_value(vars, "VOLC_ASR_WS_URL"@),
                        "wss://openspeech.bytedance.com/api/v3/sauc/bigmodel"@,
                    ),
                    app_id,
                    token,
                    resource: settings::or_else(
                        settings::either(
                            settings::set_value(vars, "VOLC_ASR_RESOURCE_ID"@),
                            settings::set_value(vars, "VOLCENGINE_ASR_STREAM_RESOURCE_ID"@),
                        ),
                        "volc.bigasr.sauc.duration"@,
                    ),
                    model_name: settings::or_else(
                        settings::set_value(vars, "VOLC_ASR_MODEL"@),
                        "bigmodel"@,
                    ),
                    request_id,
                    connect_id: "xinshang-"@ + text::decimal(user_id as nat) + "-"@ + connect_id,
                },
            ),
        },
    }
}

impl AsrConnection {
    /// The terms of a connection with the given identifiers.
    pub fn with_ids(settings: &Settings, user_id: u64, request_id: &str, connect_id: &str) -> (r:
        Result<AsrConnection, AsrSetupError>)
        ensures
            match r {
                Ok(connection) => connection_of(settings@, user_id, request_id@, connect_id@) == Ok::<
                    Connection,
                    AsrSetupError,
                >(connection@),
                Err(e) => connection_of(settings@, user_id, request_id@, connect_id@) == Err::<
                    Connection,
                    AsrSetupError,
                >(e),
            },
    {
        let app_id = match settings.var_either("VOLC_ASR_APP_ID", "VOLCENGINE_ASR_STREAM_APP_ID") {
            Some(value) => value,
            None => return Err(AsrSetupError::NoAppId),
        };
        let token = match settings.var_either("VOLC_ASR_TOKEN", "VOLCENGINE_ASR_STREAM_API_KEY") {
            Some(value) => value,
            None => return Err(AsrSetupError::NoToken),
        };
        let resource = match settings.var_either(
            "VOLC_ASR_RESOURCE_ID",
            "VOLCENGINE_ASR_STREAM_RESOURCE_ID",
        ) {
            Some(value) => value,
            None => "volc.bigasr.sauc.duration".to_owned(),
        };
        let url = match settings.var("VOLC_ASR_WS_URL") {
            Some(value) => value.to_owned(),
            None => "wss://openspeech.bytedance.com/api/v3/sauc/bigmodel".to_owned(),
        };
        let model_name = match settings.var("VOLC_ASR_MODEL") {
            Some(value) => value.to_owned(),
            None => "bigmodel".to_owned(),
        };
        let mut connect = "xinshang-".to_owned();
        let digits = decimal_text(user_id);
        connect.append(digits.as_str());
        connect.append("-");
        connect.append(connect_id);
        Ok(
            AsrConnection {
                url,
                app_id,
                token,
                resource,
                model_name,
                request_id: request_id.to_owned(),
                connect_id: connect,
            },
        )
    }

    /// The terms of a connection with fresh identifiers.
    pub fn new(settings: &Settings, user_id: u64) -> (r: Result<AsrConnection, AsrSetupError>)
        ensures
            exists|request_id: Seq<char>, connect_id: Seq<char>|
                #![trigger connection_of(settings@, user_id, request_id, connect_id)]
                ids::is_uuid(request_id) && ids::is_uuid(connect_id) && ids::was_drawn(request_id)
                    && ids::was_drawn(connect_id) && match r {
                    Ok(connection) => connection_of(settings@, user_id, request_id, connect_id)
                        == Ok::<Connection, AsrSetupError>(connection@),
                    Err(e) => connection_of(settings@, user_id, request_id, connect_id) == Err::<
                        Connection,
                        AsrSetupError,
                    >(e),
                },
    {
        let request_id = random_uuid();
        let connect_id = random_uuid();
        proof {
            ids::lemma_drawn(request_id);
            ids::lemma_drawn(connect_id);
        }
        AsrConnection::with_ids(settings, user_id, request_id.as_str(), connect_id.as_str())
    }
}

/// The configuration for a user: 16 kHz, 16 bits, one channel.
pub fn asr_config(user_id: u64, model_name: String) -> (r: AsrConfig)
    ensures
        r.user.uid@ == "xinshang_user_"@ + text::decimal(user_id as nat),
        r.audio.format@ == "pcm"@,
        r.audio.rate == 16000,
        r.audio.bits == 16,
        r.audio.channel == 1,
        r.audio.codec@ == "raw"@,
        r.request.model_name@ == model_name@,
        r.request.enable_punc,
        r.request.enable_itn,
        r.request.enable_ddc,
        r.request.show_utterances,
{
    let mut uid = "xinshang_user_".to_owned();
    let digits = decimal_text(user_id);
    uid.append(digits.as_str());
    AsrConfig {
        user: AsrUser { uid },
        audio: AsrAudio { format: "pcm", rate: 16000, bits: 16, channel: 1, codec: "raw" },
        request: AsrRequest {
            model_name,
            enable_punc: true,
            enable_itn: true,
            enable_ddc: true,
            show_utterances: true,
        },
    }
}

/// What was said, as far as the utterances of a reply tell, one after another.
pub open spec fn utterances_text(items: Seq<JsonTree>) -> Seq<char>
    decreases items.len(),
{
    if items.len() == 0 {
        Seq::empty()
    } else {
        utterances_text(items.drop_last()) + settings::or_else(
            items.last().text_under("text"@),
            Seq::empty(),
        )
    }
}

/// What was said: the reply's text, else its utterances.
pub open spec fn said_in(reply: JsonTree) -> Seq<char> {
    match reply.member("result"@) {
        Some(result) => match result.text_under("text"@) {
            Some(said) => if said.len() > 0 {
                said
            } else {
                said_in_utterances(result)
            },
            None => said_in_utterances(result),
        },
        None => Seq::empty(),
    }
}

/// What was said in the utterances of a result.
pub open spec fn said_in_utterances(result: JsonTree) -> Seq<char> {
    match result.member("utterances"@) {
        Some(JsonTree::List(items)) => utterances_text(items),
        _ => Seq::empty(),
    }
}

/// Whether a reply says that no more will change.
pub open spec fn final_in(reply: JsonTree) -> bool {
    match reply.member("result"@) {
        Some(result) => match result.member("is_final"@) {
            Some(flag) => flag.truth() == Some(true),
            None => false,
        },
        None => false,
    }
}

/// What was said.
pub fn extract_text(reply: &Json) -> (r: String)
    ensures
        r@ == said_in(reply@),
{
    let result = match reply.get("result") {
        Some(result) => result,
        None => return String::new(),
    };
    if let Some(said) = result.text_under("text") {
        if !said.is_empty() {
            return said.to_owned();
        }
    }
    let items = match result.get("utterances") {
        Some(list) => match list.as_list() {
            Some(items) => items,
            None => return String::new(),
        },
        None => return String::new(),
    };
    let ghost all = items@.map_values(|j: Json| j@);
    let mut out = String::new();
    let mut i: usize = 0;
    assert(all.take(0) =~= Seq::<JsonTree>::empty());
    while i < items.len()
        invariant
            i <= items@.len(),
            all == items@.map_values(|j: Json| j@),
            out@ == utterances_text(all.take(i as int)),
        decreases items@.len() - i,
    {
        let ghost before = out@;
        if let Some(said) = items[i].text_under("text") {
            out.append(said);
        }
        proof {
            let so_far = all.take(i + 1);
            assert(so_far.drop_last() =~= all.take(i as int));
            assert(so_far.last() == items@[i as int]@);
            assert(before + Seq::<char>::empty() =~= before);
        }
        i = i + 1;
    }
    assert(all.take(all.len() as int) =~= all);
    out
}

/// Whether a reply says that no more will change.
pub fn is_final(reply: &Json) -> (r: bool)
    ensures
        r == final_in(reply@),
{
    match reply.get("result") {
        Some(result) => match result.get("is_final") {
            Some(flag) => match flag.as_truth() {
                Some(b) => b,
                None => false,
            },
            None => false,
        },
        None => false,
    }
}

/// The text that `String::from_utf8_lossy` makes of bytes.
pub uninterp spec fn lossy_text(bytes: Seq<u8>) -> Seq<char>;

/// Calls `String::from_utf8_lossy`. Its result is a function of the bytes;
/// bytes that are valid UTF-8 are decoded as they stand.
#[verifier::external_body]
fn text_of_bytes(bytes: &Vec<u8>) -> (r: String)
    ensures
        r@ == lossy_text(bytes@),
        vstd::utf8::valid_utf8(bytes@) ==> r@ == vstd::utf8::decode_utf8(bytes@),
{
    String::from_utf8_lossy(bytes).to_string()
}

/// What the connection between browser and recogniser takes in.
pub enum PipeInput {
    /// Sound from the browser; none of it means that the user is done.
    Audio(Vec<u8>),
    /// The browser will send no more.
    AudioEnded,
    /// Bytes from the recogniser.
    Binary(Vec<u8>),
    /// The recogniser has hung up.
    Closed,
    /// Something else from the recogniser.
    Other,
    /// The connection to the recogniser broke; why.
    Broken(String),
}

/// How to go on.
#[derive(Clone, Copy, Debug, PartialEq, Eq, Structural)]
pub enum PipeNext {
    /// Wait for more.
    Continue,
    /// Wait for more, unless the frame could not be sent.
    StopUnlessSent,
    /// Stop.
    Stop,
    /// Stop with an error: the recogniser reported one.
    Fail,
}

/// What to do about an input: a frame for the recogniser, an event for the
/// browser, and how to go on.
pub struct PipeOutput {
    pub frame: Option<Vec<u8>>,
    pub event: Option<AsrClientEvent>,
    pub next: PipeNext,
}

/// The meaning of what to do.
pub struct PipeStep {
    pub frame: Option<Seq<u8>>,
    pub event: Option<(Seq<char>, Seq<char>)>,
    pub next: PipeNext,
}

impl View for PipeOutput {
    type V = PipeStep;

    open spec fn view(&self) -> PipeStep {
        PipeStep {
            frame: match self.frame {
                Some(f) => Some(f@),
                None => None,
            },
            event: match self.event {
                Some(e) => Some(e@),
                None => None,
            },
            next: self.next,
        }
    }
}

/// The frame with the configuration, which is the first of a connection.
pub open spec fn config_frame_of(config: Seq<u8>) -> Seq<u8> {
    frame::frame_bytes(MT_FULL_CLIENT, FLAG_SEQ_POS, SER_JSON, COMP_NONE, Some(1), config)
}

/// The frame with the `n`-th piece of sound.
pub open spec fn audio_frame(n: i32, sound: Seq<u8>) -> Seq<u8> {
    frame::frame_bytes(MT_AUDIO_ONLY, FLAG_SEQ_POS, SER_NONE, COMP_NONE, Some(n), sound)
}

/// The frame that says that the sound is over; its number is negative.
pub open spec fn last_frame(n: i32) -> Seq<u8> {
    frame::frame_bytes(
        MT_AUDIO_ONLY,
        FLAG_SEQ_NEG,
        SER_NONE,
        COMP_NONE,
        Some((-n) as i32),
        Seq::empty(),
    )
}

/// Nothing to do but to go on.
pub open spec fn idle() -> PipeStep {
    PipeStep { frame: None, event: None, next: PipeNext::Continue }
}

/// What to do about bytes from the recogniser. What is no frame, or no reply,
/// is passed over.
pub open spec fn step_on_frame(bin: Seq<u8>) -> PipeStep {
    match frame::frame_of(bin) {
        Err(_) => idle(),
        Ok(f) => if f.message_type == MT_FULL_SERVER {
            match json::json_in(f.payload) {
                Some(reply) => PipeStep {
                    frame: None,
                    event: Some(
                        (
                            if final_in(reply) {
                                "final"@
                            } else {
                                "partial"@
                            },
                            said_in(reply),
                        ),
                    ),
                    next: PipeNext::Continue,
                },
                None => idle(),
            }
        } else if f.message_type == MT_SERVER_ERROR {
            PipeStep {
                frame: None,
                event: Some(("error"@, lossy_text(f.payload))),
                next: PipeNext::Fail,
            }
        } else {
            idle()
        },
    }
}

/// Whether an input makes a frame go out.
pub open spec fn sends(input: PipeInput) -> bool {
    input is Audio || input is AudioEnded
}

/// What to do about an input, where `sent` is the number of the last frame
/// that went out.
pub open spec fn step_on(sent: i32, input: PipeInput) -> PipeStep {
    match input {
        PipeInput::Audio(sound) => if sound@.len() == 0 {
            PipeStep {
                frame: Some(last_frame((sent + 1) as i32)),
                event: None,
                next: PipeNext::Continue,
            }
        } else {
            PipeStep {
                frame: Some(audio_frame((sent + 1) as i32, sound@)),
                event: None,
                next: PipeNext::StopUnlessSent,
            }
        },
        PipeInput::AudioEnded => PipeStep {
            frame: Some(last_frame((sent + 1) as i32)),
            event: None,
            next: PipeNext::Stop,
        },
        PipeInput::Binary(bin) => step_on_frame(bin@),
        PipeInput::Closed => PipeStep { frame: None, event: None, next: PipeNext::Stop },
        PipeInput::Other => idle(),
        PipeInput::Broken(why) => PipeStep {
            frame: None,
            event: Some(("error"@, "ws error: "@ + why@)),
            next: PipeNext::Stop,
        },
    }
}

/// The event that the connection stands.
pub fn ready_event() -> (r: AsrClientEvent)
    ensures
        r@ == ("ready"@, Seq::<char>::empty()),
{
    AsrClientEvent { kind: "ready", text: String::new() }
}

/// The frame with the configuration.
pub fn config_frame(config: &[u8]) -> (r: Vec<u8>)
    ensures
        r@ == config_frame_of(config@),
{
    build_frame(MT_FULL_CLIENT, FLAG_SEQ_POS, SER_JSON, COMP_NONE, Some(1), config)
}

/// A reply of the recogniser as the browser is told of it.
pub fn reply_event(reply: &Json) -> (r: AsrClientEvent)
    ensures
        r@ == (if final_in(reply@) {
            "final"@
        } else {
            "partial"@
        }, said_in(reply@)),
{
    let kind = if is_final(reply) {
        "final"
    } else {
        "partial"
    };
    AsrClientEvent { kind, text: extract_text(reply) }
}

/// What to do about bytes from the recogniser.
fn on_frame(bin: &Vec<u8>) -> (r: PipeOutput)
    ensures
        r@ == step_on_frame(bin@),
{
    let nothing = PipeOutput { frame: None, event: None, next: PipeNext::Continue };
    let parsed = match parse_frame(bin.as_slice()) {
        Ok(parsed) => parsed,
        Err(_) => return nothing,
    };
    if parsed.message_type == MT_FULL_SERVER {
        match Json::parse(parsed.payload.as_slice()) {
            Some(reply) => PipeOutput {
                frame: None,
                event: Some(reply_event(&reply)),
                next: PipeNext::Continue,
            },
            None => nothing,
        }
    } else if parsed.message_type == MT_SERVER_ERROR {
        let said = text_of_bytes(&parsed.payload);
        PipeOutput {
            frame: None,
            event: Some(AsrClientEvent { kind: "error", text: said }),
            next: PipeNext::Fail,
        }
    } else {
        nothing
    }
}

/// The connection between one browser and the recogniser: the number of the
/// last frame that went out.
pub struct AsrSession {
    sent: i32,
}

impl View for AsrSession {
    type V = i32;

    closed spec fn view(&self) -> i32 {
        self.sent
    }
}

impl AsrSession {
    #[verifier::type_invariant]
    spec fn well_formed(&self) -> bool {
        1 <= self.sent
    }

    /// The connection after the configuration went out.
    pub fn new() -> (session: AsrSession)
        ensures
            session@ == 1,
    {
        AsrSession { sent: 1 }
    }

    /// The number of the last frame that went out.
    pub fn sent(&self) -> (n: i32)
        ensures
            n == self@,
    {
        self.sent
    }

    /// What to do about an input.
    pub fn step(&mut self, input: PipeInput) -> (r: PipeOutput)
        requires
            sends(input) ==> old(self)@ < i32::MAX,
        ensures
            r@ == step_on(old(self)@, input),
            final(self)@ == (if sends(input) {
                old(self)@ + 1
            } else {
                old(self)@ as int
            }),
    {
        proof {
            use_type_invariant(&*self);
        }
        match input {
            PipeInput::Audio(sound) => {
                self.sent = self.sent + 1;
                if sound.len() == 0 {
                    let out = build_frame(
                        MT_AUDIO_ONLY,
                        FLAG_SEQ_NEG,
                        SER_NONE,
                        COMP_NONE,
                        Some(-self.sent),
                        sound.as_slice(),
                    );
                    assert(sound@ =~= Seq::<u8>::empty());
                    PipeOutput { frame: Some(out), event: None, next: PipeNext::Continue }
                } else {
                    let out = build_frame(
                        MT_AUDIO_ONLY,
                        FLAG_SEQ_POS,
                        SER_NONE,
                        COMP_NONE,
                        Some(self.sent),
                        sound.as_slice(),
                    );
                    PipeOutput { frame: Some(out), event: None, next: PipeNext::StopUnlessSent }
                }
            },
            PipeInput::AudioEnded => {
                self.sent = self.sent + 1;
                let none: Vec<u8> = Vec::new();
                let out = build_frame(
                    MT_AUDIO_ONLY,
                    FLAG_SEQ_NEG,
                    SER_NONE,
                    COMP_NONE,
                    Some(-self.sent),
                    none.as_slice(),
                );
                assert(none@ =~= Seq::<u8>::empty());
                PipeOutput { frame: Some(out), event: None, next: PipeNext::Stop }
            },
            PipeInput::Binary(bin) => on_frame(&bin),
            PipeInput::Closed => PipeOutput { frame: None, event: None, next: PipeNext::Stop },
            PipeInput::Other => PipeOutput { frame: None, event: None, next: PipeNext::Continue },
            PipeInput::Broken(why) => {
                let mut said = "ws error: ".to_owned();
                said.append(why.as_str());
                PipeOutput {
                    frame: None,
                    event: Some(AsrClientEvent { kind: "error", text: said }),
                    next: PipeNext::Stop,
                }
            },
        }
    }
}

/// What the browser sends.
pub enum VoiceMessage {
    Binary(Vec<u8>),
    Text(String),
    Close,
    Other,
}

/// What to do about it.
pub enum VoiceAction {
    /// Pass the sound on; stop if nobody takes it.
    Forward(Vec<u8>),
    /// Pass on that the user is done.
    End,
    /// Stop listening.
    Stop,
    /// Nothing.
    Ignore,
}

/// What to do about a message of the browser: a text that speaks of the end is
/// the end of the sound.
pub fn voice_step(message: VoiceMessage) -> (r: VoiceAction)
    ensures
        match message {
            VoiceMessage::Binary(sound) => r == VoiceAction::Forward(sound),
            VoiceMessage::Text(t) => if text::occurs_in("end"@, t@) {
                r == VoiceAction::End
            } else {
                r == VoiceAction::Ignore
            },
            VoiceMessage::Close => r == VoiceAction::Stop,
            VoiceMessage::Other => r == VoiceAction::Ignore,
        },
{
    match message {
        VoiceMessage::Binary(sound) => VoiceAction::Forward(sound),
        VoiceMessage::Text(t) => if contains_text(t.as_str(), "end") {
            VoiceAction::End
        } else {
            VoiceAction::Ignore
        },
        VoiceMessage::Close => VoiceAction::Stop,
        VoiceMessage::Other => VoiceAction::Ignore,
    }
}

/// The event that the browser gets where the recogniser cannot be used.
pub fn not_configured_event() -> (r: AsrClientEvent)
    ensures
        r@ == ("error"@, "asr_not_configured"@),
{
    AsrClientEvent { kind: "error", text: "asr_not_configured".to_owned() }
}

/// The number of the last frame after a run of inputs, from `sent` on.
pub open spec fn sent_after(sent: int, inputs: Seq<PipeInput>) -> int
    decreases inputs.len(),
{
    if inputs.len() == 0 {
        sent
    } else {
        sent_after(sent, inputs.drop_last()) + if sends(inputs.last()) {
            1int
        } else {
            0
        }
    }
}

/// Frames are numbered without gaps: each input of sound takes the next
/// number, and no other input takes any.
pub proof fn law_frames_are_numbered(sent: int, before: Seq<PipeInput>, input: PipeInput)
    ensures
        sent_after(sent, before.push(input)) == sent_after(sent, before) + (if sends(input) {
            1int
        } else {
            0
        }),
        sent <= sent_after(sent, before) <= sent + before.len(),
    decreases before.len(),
{
    assert(before.push(input).drop_last() =~= before);
    if before.len() > 0 {
        assert(before.drop_last().push(before.last()) =~= before);
        law_frames_are_numbered(sent, before.drop_last(), before.last());
    }
}

/// What goes out can be read back: the frame of a piece of sound holds that
/// sound, and the frame that ends it holds none.
pub proof fn law_sound_is_passed_on(sent: i32, sound: Vec<u8>)
    requires
        1 <= sent < i32::MAX,
        sound@.len() < 0x1_0000_0000,
    ensures
        step_on(sent, PipeInput::Audio(sound)).frame matches Some(bytes) && frame::frame_of(bytes)
            == Ok::<frame::Frame, frame::FrameError>(
            frame::Frame { message_type: MT_AUDIO_ONLY, payload: sound@ },
        ),
{
    let n = (sent + 1) as i32;
    let none = Seq::<u8>::empty();
    let bytes = step_on(sent, PipeInput::Audio(sound)).frame->0;
    if sound@.len() == 0 {
        assert(sound@ =~= Seq::<u8>::empty());
        frame::law_frame_roundtrip(
            MT_AUDIO_ONLY,
            FLAG_SEQ_NEG,
            SER_NONE,
            COMP_NONE,
            Some((-n) as i32),
            Seq::empty(),
            none,
        );
    } else {
        frame::law_frame_roundtrip(
            MT_AUDIO_ONLY,
            FLAG_SEQ_POS,
            SER_NONE,
            COMP_NONE,
            Some(n),
            sound@,
            none,
        );
    }
    assert(bytes + none =~= bytes);
}

/// Where the recogniser is configured, and only there, a connection has its
/// terms.
pub proof fn law_configured_can_connect(
    vars: Map<Seq<char>, Seq<char>>,
    user_id: u64,
    request_id: Seq<char>,
    connect_id: Seq<char>,
)
    ensures
        connection_of(vars, user_id, request_id, connect_id) is Ok <==> app_id_of(vars) is Some
            && token_of(vars) is Some,
{
}

/// What was said is the reply's text, if it has one; else the texts of its
/// utterances, each in its turn, those without one left out.
pub proof fn law_what_was_said(
    reply: JsonTree,
    result: JsonTree,
    items: Seq<JsonTree>,
    item: JsonTree,
)
    ensures
        reply.member("result"@) == Some(result) ==> {
            &&& result.text_under("text"@) is Some && result.text_under("text"@)->0.len() > 0
                ==> said_in(reply) == result.text_under("text"@)->0
            &&& (result.text_under("text"@) is None || result.text_under("text"@)->0.len() == 0)
                && result.member("utterances"@) == Some(JsonTree::List(items.push(item)))
                ==> said_in(reply) == utterances_text(items) + (match item.text_under("text"@) {
                Some(said) => said,
                None => Seq::empty(),
            })
            &&& (result.text_under("text"@) is None || result.text_under("text"@)->0.len() == 0)
                && !(result.member_or_null("utterances"@) is List) ==> said_in(reply).len() == 0
        },
        reply.member("result"@) is None ==> said_in(reply).len() == 0,
        utterances_text(items.push(item)) == utterances_text(items) + (
        match item.text_under("text"@) {
            Some(said) => said,
            None => Seq::empty(),
        }),
        utterances_text(Seq::empty()).len() == 0,
{
    assert(items.push(item).drop_last() =~= items);
}

/// A caption is final exactly where the reply's result says so with `true`.
pub proof fn law_final_captions(reply: JsonTree, result: JsonTree)
    ensures
        reply.member("result"@) == Some(result) ==> (final_in(reply) <==> result.member(
            "is_final"@,
        ) == Some(JsonTree::Bool(true))),
        reply.member("result"@) is None ==> !final_in(reply),
{
}

/// What comes back from the recogniser is passed on: every reply as a caption,
/// final or not, whatever number its frame has; an error as an error, after which
/// it is over; and nothing else.
pub proof fn law_replies_are_passed_on(sent: i32, bin: Vec<u8>, reply: JsonTree)
    ensures
        ({
            let step = step_on(sent, PipeInput::Binary(bin));
            &&& step.frame is None
            &&& match frame::frame_of(bin@) {
                Ok(f) => if f.message_type == 9 {
                    &&& step.next == PipeNext::Continue
                    &&& json::json_in(f.payload) == Some(reply) && final_in(reply) ==> step.event
                        == Some(("final"@, said_in(reply)))
                    &&& json::json_in(f.payload) == Some(reply) && !final_in(reply) ==> step.event
                        == Some(("partial"@, said_in(reply)))
                    &&& json::json_in(f.payload) is None ==> step.event is None
                } else if f.message_type == 15 {
                    step.event == Some(("error"@, lossy_text(f.payload))) && step.next
                        == PipeNext::Fail
                } else {
                    step.event is None && step.next == PipeNext::Continue
                },
                Err(_) => step.event is None && step.next == PipeNext::Continue,
            }
        }),
{
}

/// A caption in a frame whose flags are 1 or 3 reaches the browser, whatever its
/// number is.
pub proof fn law_numbered_replies_reach_the_browser(
    sent: i32,
    bin: Vec<u8>,
    flags: u8,
    third: u8,
    number: Seq<u8>,
    size: Seq<u8>,
    payload: Seq<u8>,
    reply: JsonTree,
)
    requires
        flags == 1 || flags == 3,
        number.len() == 4,
        frame::sized(size, payload.len()),
        bin@ == seq![0x11u8, (144 + flags) as u8, third, 0u8] + number + size + payload,
        json::json_in(payload) == Some(reply),
    ensures
        step_on(sent, PipeInput::Binary(bin)).event == Some(
            (
                if final_in(reply) {
                    "final"@
                } else {
                    "partial"@
                },
                said_in(reply),
            ),
        ),
{
    let none = Seq::<u8>::empty();
    frame::law_numbered_frames_are_read(9, flags, third, number, size, payload, none);
    assert(bin@ + none =~= bin@);
}

/// What goes to the recogniser: sound under the next number, in a frame of type 2
/// with flags 1; the end of the sound under the next number made negative, with
/// flags 3; and nothing else. It goes on after the user is done, and it is over
/// when the browser is gone.
pub proof fn law_sound_goes_out_in_order(sent: i32, sound: Vec<u8>)
    requires
        1 <= sent < i32::MAX,
        sound@.len() < 0x1_0000_0000,
    ensures
        sound@.len() > 0 ==> {
            let step = step_on(sent, PipeInput::Audio(sound));
            &&& step.next == PipeNext::StopUnlessSent && step.event is None
            &&& step.frame == Some(
                frame::frame_bytes(2, 1, 0, 0, Some((sent + 1) as i32), sound@),
            )
        },
        sound@.len() == 0 ==> {
            let step = step_on(sent, PipeInput::Audio(sound));
            &&& step.next == PipeNext::Continue && step.event is None
            &&& step.frame == Some(
                frame::frame_bytes(2, 3, 0, 0, Some((-(sent + 1)) as i32), Seq::empty()),
            )
        },
        ({
            let step = step_on(sent, PipeInput::AudioEnded);
            &&& step.next == PipeNext::Stop && step.event is None
            &&& step.frame == Some(
                frame::frame_bytes(2, 3, 0, 0, Some((-(sent + 1)) as i32), Seq::empty()),
            )
        }),
        sends(PipeInput::Audio(sound)) && sends(PipeInput::AudioEnded),
        config_frame_of(sound@) == frame::frame_bytes(1, 1, 1, 0, Some(1), sound@),
{
}

/// A connection that is closed is over; one that breaks is over with an error
/// that says why; anything else is passed over; and none of it sends a frame.
pub proof fn law_broken_connections_are_over(sent: i32, why: String, bin: Vec<u8>)
    ensures
        step_on(sent, PipeInput::Closed) == (PipeStep {
            frame: None,
            event: None,
            next: PipeNext::Stop,
        }),
        step_on(sent, PipeInput::Other) == (PipeStep {
            frame: None,
            event: None,
            next: PipeNext::Continue,
        }),
        step_on(sent, PipeInput::Broken(why)) == (PipeStep {
            frame: None,
            event: Some(("error"@, "ws error: "@ + why@)),
            next: PipeNext::Stop,
        }),
        !sends(PipeInput::Closed) && !sends(PipeInput::Other) && !sends(PipeInput::Broken(why))
            && !sends(PipeInput::Binary(bin)),
{
}

/// The terms of a connection: id and token by their own names or the vendor's,
/// and for the rest what is set or what is usual.
pub proof fn law_terms_of_a_connection(
    vars: Map<Seq<char>, Seq<char>>,
    user_id: u64,
    request_id: Seq<char>,
    connect_id: Seq<char>,
)
    ensures
        ({
            let set = |key: Seq<char>| settings::set_value(vars, key);
            let id = if set("VOLC_ASR_APP_ID"@) is Some {
                set("VOLC_ASR_APP_ID"@)
            } else {
                set("VOLCENGINE_ASR_STREAM_APP_ID"@)
            };
            let token = if set("VOLC_ASR_TOKEN"@) is Some {
                set("VOLC_ASR_TOKEN"@)
            } else {
                set("VOLCENGINE_ASR_STREAM_API_KEY"@)
            };
            let resource = if set("VOLC_ASR_RESOURCE_ID"@) is Some {
                set("VOLC_ASR_RESOURCE_ID"@)
            } else {
                set("VOLCENGINE_ASR_STREAM_RESOURCE_ID"@)
            };
            match connection_of(vars, user_id, request_id, connect_id) {
                Ok(c) => {
                    &&& Some(c.app_id) == id && Some(c.token) == token
                    &&& c.resource == settings::or_else(resource, "volc.bigasr.sauc.duration"@)
                    &&& c.url == settings::or_else(
                        set("VOLC_ASR_WS_URL"@),
                        "wss://openspeech.bytedance.com/api/v3/sauc/bigmodel"@,
                    )
                    &&& c.model_name == settings::or_else(set("VOLC_ASR_MODEL"@), "bigmodel"@)
                    &&& c.request_id == request_id
                    &&& c.connect_id == "xinshang-"@ + text::decimal(user_id as nat) + "-"@
                        + connect_id
                },
                Err(AsrSetupError::NoAppId) => id is None,
                Err(AsrSetupError::NoToken) => id is Some && token is None,
            }
        }),
{
}

/// What the recogniser is told first: who speaks, that the sound is raw PCM of
/// 16000 samples of 16 bits on one channel, the model, and to do all that it can.
pub proof fn law_recogniser_is_told(user_id: u64, model_name: String, r: AsrConfig)
    requires
        call_ensures(asr_config, (user_id, model_name), r),
    ensures
        r.user.uid@ == "xinshang_user_"@ + text::decimal(user_id as nat),
        r.audio.format@ == "pcm"@ && r.audio.codec@ == "raw"@,
        r.audio.rate == 16000 && r.audio.bits == 16 && r.audio.channel == 1,
        r.request.model_name@ == model_name@,
        r.request.enable_punc && r.request.enable_itn && r.request.enable_ddc
            && r.request.show_utterances,
{
}

/// What the browser sends is heard: sound is passed on as it is, a text with
/// `end` in it is the end, and closing stops.
pub proof fn law_browser_is_heard(
    message: VoiceMessage,
    before: Seq<char>,
    after: Seq<char>,
    r: VoiceAction,
)
    requires
        call_ensures(voice_step, (message,), r),
    ensures
        message matches VoiceMessage::Binary(sound) ==> r == VoiceAction::Forward(sound),
        message matches VoiceMessage::Text(t) ==> {
            &&& t@ == before + "end"@ + after ==> r == VoiceAction::End
            &&& !text::occurs_in("end"@, t@) ==> r == VoiceAction::Ignore
        },
        message is Close ==> r == VoiceAction::Stop,
        message is Other ==> r == VoiceAction::Ignore,
{
    text::law_parts_occur("end"@, before, before, after);
}

} // verus!
