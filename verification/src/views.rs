//! That the contents of values leave nothing out: what contracts say of the contents, they say of
//! the values.

use crate::app::flow::{handling_result, Flow, FlowView, Then};
use crate::app::reactions::{Response, ResponseView};
use crate::app::{parse_result, App, Occasion};
use crate::error::{
    AppError, AppErrorView, GStreamerError, IoErrorKind, PeerError, WebSocketError,
};
use crate::media::plan::{call_result, Plan, Verdict, VerdictView};
use crate::media::step::{
    argument_views, numbers, step_views, Argument, ArgumentView, Call, CallView, Caps, OnFailure,
    PadReaction, PipelineState, PropertyValue, Reaction, SdpType, Step, StepView, Target,
    TargetView,
};
use crate::media::webrtcbin::{
    creation, EventView, IceCandidate, Pad, Sdp, SdpView, WebRtcBinEvent, WebRtcErr, WebRtcErrView,
};
use crate::message::{
    optional_message, optional_text, CloseFrame, PipelineMessage, PipelineMessageView, WsMessage,
    WsMessageView,
};
use crate::server::{address_result, text_result, Turn, TurnView};
use crate::text::names;
use crate::wire::{JsonMsg, JsonMsgView};
use vstd::prelude::*;

verus! {

/// Messages of the WebSocket and between peers, whole.
pub proof fn law_messages_are_whole(
    text: String,
    other: String,
    data: Vec<u8>,
    frame: CloseFrame,
    message: WsMessage,
    n: u32,
)
    ensures
        WsMessage::Text(text)@ == WsMessageView::Text(text@),
        WsMessage::Binary(data)@ == WsMessageView::Binary(data@),
        WsMessage::Ping(data)@ == WsMessageView::Ping(data@),
        WsMessage::Pong(data)@ == WsMessageView::Pong(data@),
        WsMessage::Close(None)@ == WsMessageView::Close(None),
        WsMessage::Close(Some(frame))@ == WsMessageView::Close(Some((frame.code, frame.reason@))),
        optional_message(Some(message)) == Some(message@),
        optional_message(None) is None,
        optional_text(Some(text)) == Some(text@),
        optional_text(None) is None,
        (JsonMsg::Ice { candidate: text, sdp_mline_index: n })@ == (JsonMsgView::Ice {
            candidate: text@,
            sdp_mline_index: n,
        }),
        (JsonMsg::Sdp { type_: text, sdp: other })@ == (JsonMsgView::Sdp {
            type_: text@,
            sdp: other@,
        }),
{
}

/// Messages of the pipeline, whole.
pub proof fn law_pipeline_messages_are_whole(
    src: Option<String>,
    error: String,
    debug: Option<String>,
)
    ensures
        (PipelineMessage::Error { src, error, debug })@ == (PipelineMessageView::Error {
            src: match src {
                Some(src) => Some(src@),
                None => None,
            },
            error: error@,
            debug: match debug {
                Some(debug) => Some(debug@),
                None => None,
            },
        }),
        (PipelineMessage::Warning { debug })@ == (PipelineMessageView::Warning {
            debug: match debug {
                Some(debug) => Some(debug@),
                None => None,
            },
        }),
        PipelineMessage::Other@ == PipelineMessageView::Other,
{
}

/// Errors, whole.
pub proof fn law_errors_are_whole(kind: IoErrorKind, text: String)
    ensures
        AppError::WebSocket(WebSocketError { kind, description: text })@
            == (AppErrorView::WebSocket { kind, description: text@ }),
        AppError::GStreamer(GStreamerError(text))@ == AppErrorView::GStreamer(text@),
        AppError::Peer(PeerError(text))@ == AppErrorView::Peer(text@),
        AppError::Json(text)@ == AppErrorView::Json(text@),
        AppError::Media(text)@ == AppErrorView::Media(text@),
        AppError::Transport(text)@ == AppErrorView::Transport(text@),
        AppError::Url(text)@ == AppErrorView::Url(text@),
        WebRtcErr::Canceled@ == WebRtcErrView::Canceled,
        WebRtcErr::Whatever(text)@ == WebRtcErrView::Whatever(text@),
{
}

/// Calls that make and connect elements, whole.
pub proof fn law_calls_are_whole(
    text: String,
    name: Option<String>,
    other: String,
    elements: Vec<usize>,
    element: usize,
    caps: Caps,
    target: Target,
    value: PropertyValue,
    i: int,
)
    ensures
        (Call::ConnectServer { url: text })@ == (CallView::ConnectServer { url: text@ }),
        (Call::NewPipeline { pipeline: text })@ == (CallView::NewPipeline { pipeline: text@ }),
        (Call::Make { factory: text, name })@ == (CallView::Make {
            factory: text@,
            name: match name {
                Some(name) => Some(name@),
                None => None,
            },
        }),
        (Call::Add { elements })@ == (CallView::Add { elements: numbers(elements@) }),
        (Call::Link { elements })@ == (CallView::Link { elements: numbers(elements@) }),
        numbers(elements@).len() == elements@.len(),
        0 <= i < elements@.len() ==> numbers(elements@)[i] == elements@[i],
        (Call::LinkFiltered { element, caps })@ == (CallView::LinkFiltered {
            element: element as nat,
            caps: caps@,
        }),
        caps@.name == caps.name@,
        caps@.media == caps.media@,
        caps@.encoding_name == caps.encoding_name@,
        caps@.payload == caps.payload,
        (Call::SyncState { element })@ == (CallView::SyncState { element: element as nat }),
        (Call::StaticPad { element, pad: text })@ == (CallView::StaticPad {
            element: element as nat,
            pad: text@,
        }),
        Call::LinkStream@ == CallView::LinkStream,
        (Call::SetPropertyFromText { target, property: text, text: other })@
            == (CallView::SetPropertyFromText {
            target: target@,
            property: text@,
            text: other@,
        }),
        (Call::SetProperty { target, property: text, value })@ == (CallView::SetProperty {
            target: target@,
            property: text@,
            value,
        }),
        Target::WebRtcBin@ == TargetView::WebRtcBin,
        Target::Transceiver@ == TargetView::Transceiver,
        Target::Element(element)@ == TargetView::Element(element as nat),
{
}

/// Calls that signal, post, send and set states, whole.
pub proof fn law_signals_are_whole(
    text: String,
    arguments: Vec<Argument>,
    reaction: Reaction,
    target: Target,
    pad_reaction: PadReaction,
    state: PipelineState,
    message: WsMessage,
    type_: SdpType,
    n: u32,
    z: i32,
    i: int,
)
    ensures
        (Call::Connect { signal: text, reaction })@ == (CallView::Connect {
            signal: text@,
            reaction,
        }),
        (Call::ConnectPadAdded { target, pad_reaction })@ == (CallView::ConnectPadAdded {
            target: target@,
            pad_reaction,
        }),
        (Call::Emit { signal: text, arguments })@ == (CallView::Emit {
            signal: text@,
            arguments: argument_views(arguments@),
        }),
        argument_views(arguments@).len() == arguments@.len(),
        0 <= i < arguments@.len() ==> argument_views(arguments@)[i] == arguments@[i]@,
        (Call::SetState { state })@ == (CallView::SetState { state }),
        Call::StartPlaying@ == CallView::StartPlaying,
        (Call::PostError { text })@ == (CallView::PostError { text: text@ }),
        Call::WatchBus@ == CallView::WatchBus,
        (Call::Send { message })@ == (CallView::Send { message: message@ }),
        Argument::NoStructure@ == ArgumentView::NoStructure,
        Argument::NoPromise@ == ArgumentView::NoPromise,
        Argument::Promise@ == ArgumentView::Promise,
        (Argument::Description { type_, sdp: text })@ == (ArgumentView::Description {
            type_,
            sdp: text@,
        }),
        Argument::CreatedOffer@ == ArgumentView::CreatedOffer,
        Argument::Unsigned(n)@ == ArgumentView::Unsigned(n),
        Argument::Signed(z)@ == ArgumentView::Signed(z),
        Argument::Text(text)@ == ArgumentView::Text(text@),
        Sdp::Answer(text)@ == SdpView::Answer(text@),
        Sdp::Offer(text)@ == SdpView::Offer(text@),
{
}

/// Steps and what comes of them, whole.
pub proof fn law_steps_are_whole(
    call: Call,
    on_failure: OnFailure,
    steps: Vec<Step>,
    plan: Plan,
    error: AppError,
    text: String,
    i: int,
)
    ensures
        (Step { call, on_failure })@ == (StepView { call: call@, on_failure }),
        step_views(steps@).len() == steps@.len(),
        0 <= i < steps@.len() ==> step_views(steps@)[i] == steps@[i]@,
        Verdict::Continue(plan)@ == VerdictView::Continue(plan@),
        Verdict::Complete@ == VerdictView::Complete,
        Verdict::Failed(error)@ == VerdictView::Failed(error@),
        Verdict::Abort(text)@ == VerdictView::Abort(text@),
        call_result(Ok(())) == Ok::<(), Seq<char>>(()),
        call_result(Err(text)) == Err::<(), Seq<char>>(text@),
{
}

/// Where the handling of messages, reactions and the client stand, whole.
pub proof fn law_standings_are_whole(
    message: WsMessage,
    error: AppError,
    text: String,
    plan: Plan,
    then: Then,
    step: Step,
    occasion: Occasion,
    flow: Flow,
)
    ensures
        Flow::Done(Ok(Some(message)))@ == FlowView::Done(Ok(Some(message@))),
        Flow::Done(Ok(None))@ == FlowView::Done(Ok(None)),
        Flow::Done(Err(error))@ == FlowView::Done(Err(error@)),
        Flow::ParseJson(text)@ == FlowView::ParseJson(text@),
        Flow::Perform(plan, then)@ == FlowView::Perform(plan@, then),
        Flow::CreateAnswer(step)@ == FlowView::CreateAnswer(step@),
        Flow::Abort(text)@ == FlowView::Abort(text@),
        handling_result(Ok(Some(message))) == Ok::<Option<WsMessageView>, AppErrorView>(
            Some(message@),
        ),
        handling_result(Ok(None)) == Ok::<Option<WsMessageView>, AppErrorView>(None),
        handling_result(Err(error)) == Err::<Option<WsMessageView>, AppErrorView>(error@),
        Response::Done@ == ResponseView::Done,
        Response::Perform(plan, occasion)@ == ResponseView::Perform(plan@, occasion),
        Response::CreateOffer(step)@ == ResponseView::CreateOffer(step@),
        Response::Report(occasion, error)@ == ResponseView::Report(occasion, error@),
        Response::Abort(text)@ == ResponseView::Abort(text@),
        Turn::Handle(flow)@ == TurnView::Handle(flow@),
        Turn::Send(message)@ == TurnView::Send(message@),
        Turn::Wait@ == TurnView::Wait,
        Turn::Exit(Ok(()))@ == TurnView::Exit(Ok(())),
        Turn::Exit(Err(error))@ == TurnView::Exit(Err(error@)),
{
}

/// Results that carry texts or messages, and what is known of the application, whole.
pub proof fn law_results_are_whole(
    text: String,
    error: AppError,
    fault: WebRtcErr,
    msg: JsonMsg,
    app: App,
    texts: Seq<&'static str>,
    ice: IceCandidate,
    pad: &Pad,
    i: int,
)
    ensures
        parse_result(Ok(msg)) == Ok::<JsonMsgView, Seq<char>>(msg@),
        parse_result(Err(text)) == Err::<JsonMsgView, Seq<char>>(text@),
        text_result(Ok(text)) == Ok::<Seq<char>, Seq<char>>(text@),
        text_result(Err(text)) == Err::<Seq<char>, Seq<char>>(text@),
        address_result(Ok(text)) == Ok::<Seq<char>, AppErrorView>(text@),
        address_result(Err(error)) == Err::<Seq<char>, AppErrorView>(error@),
        creation(Ok(text)) == Ok::<Seq<char>, WebRtcErrView>(text@),
        creation(Err(fault)) == Err::<Seq<char>, WebRtcErrView>(fault@),
        app@.peer_id == (match app.0.peer_id {
            Some(peer_id) => Some(peer_id@),
            None => None,
        }),
        app@.rtx == app.0.rtx,
        app@.pipeline == app.0.webrtcbin.pipeline@,
        app@.webrtcbin == app.0.webrtcbin.webrtcbin@,
        names(texts).len() == texts.len(),
        0 <= i < texts.len() ==> names(texts)[i] == texts[i]@,
        WebRtcBinEvent::OnNegotiationNeeded@ == EventView::OnNegotiationNeeded,
        WebRtcBinEvent::OnIceCandidate(ice)@ == (EventView::OnIceCandidate {
            sdp_mline_index: ice.sdp_mline_index,
            candidate: ice.candidate@,
        }),
        WebRtcBinEvent::PadAdded(pad)@ == EventView::PadAdded(*pad),
{
}

} // verus!
