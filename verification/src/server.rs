//! The connection to the signalling server: how it is set up and what its messages lead to.

use crate::app::flow::{handling_result, Flow, FlowView};
use crate::app::graph::{built, empty_graph, failure_means, Setting};
use crate::app::laws::law_reported_errors_are_returned;
use crate::app::{
    message_handled, pipeline_message_handled, registration, text_sent, App, AppInner, AppView,
};
use crate::error::{AppError, AppErrorView};
use crate::media::plan::{
    call_result, calls, calls_made, goes_on, law_run_stops_at_failure, run, started, VerdictView,
};
use crate::media::step::{
    or_abort, or_return, regardless, step_views, Call, CallView, OnFailure, PipelineState, Step,
    StepView, TargetView,
};
use crate::media::webrtcbin::{construction, RtcBundlePolicy, WebRtcBin};
use crate::message::{optional_text, PipelineMessage, WsMessage, WsMessageView};
use std::sync::Arc;
use vstd::prelude::*;

verus! {

/// The STUN server that webrtcbin uses.
pub const STUN_SERVER: &'static str = "stun://stun.l.google.com:19302";

/// What the client is started with: the address of the signalling server, the peer to call, and
/// whether to retransmit, from the options that the user gave.
pub fn parse_args(server: Option<String>, peer_id: Option<String>, rtx: bool) -> (args: (
    String,
    Option<String>,
    bool,
))
    ensures
        args.0@ == (match server {
            Some(server) => server@,
            None => "ws://localhost:8443"@,
        }),
        args.1 == peer_id,
        args.2 == rtx,
{
    let server = match server {
        Some(server) => server,
        None => "ws://localhost:8443".to_owned(),
    };
    (server, peer_id, rtx)
}

/// What `url::Url::parse` makes of a text: the serialisation of the URL, or the description of
/// the error.
pub uninterp spec fn parsed_url(text: Seq<char>) -> Result<Seq<char>, Seq<char>>;

/// A result whose two sides are texts, by its contents.
pub open spec fn text_result(result: Result<String, String>) -> Result<Seq<char>, Seq<char>> {
    match result {
        Ok(text) => Ok(text@),
        Err(text) => Err(text@),
    }
}

/// Calls `url::Url::parse`.
///
/// Claimed of it: what it returns, the URL as its serialisation and the error as its
/// description, depends on the text alone.
#[verifier::external_body]
fn parse_url(text: &str) -> (parsed: Result<String, String>)
    ensures
        text_result(parsed) == parsed_url(text@),
{
    url::Url::parse(text).map(String::from).map_err(|error| error.to_string())
}

/// The address to connect to, from what parsing the server's address gave.
pub open spec fn address(parsed: Result<Seq<char>, Seq<char>>) -> Result<Seq<char>, AppErrorView> {
    match parsed {
        Ok(url) => Ok(url),
        Err(text) => Err(AppErrorView::Url(text)),
    }
}

/// An address or the reason why there is none, by its contents.
pub open spec fn address_result(result: Result<String, AppError>) -> Result<
    Seq<char>,
    AppErrorView,
> {
    match result {
        Ok(url) => Ok(url@),
        Err(error) => Err(error@),
    }
}

/// The address to connect to, from what parsing the server's address gave.
pub fn checked_address(parsed: Result<String, String>) -> (result: Result<String, AppError>)
    ensures
        address_result(result) == address(text_result(parsed)),
{
    match parsed {
        Ok(url) => Ok(url),
        Err(text) => Err(AppError::Url(text)),
    }
}

/// The address to connect to, in the notation of a URL.
pub fn server_address(server: &str) -> (result: Result<String, AppError>)
    ensures
        address_result(result) == address(parsed_url(server@)),
{
    checked_address(parse_url(server))
}

/// The steps that make the pipeline ready for a session.
pub open spec fn preparation() -> Seq<StepView> {
    construction("webrtcbin"@) + seq![
        regardless(
            CallView::SetPropertyFromText {
                target: TargetView::WebRtcBin,
                property: "bundle-policy"@,
                text: "max-bundle"@,
            },
        ),
        regardless(
            CallView::SetPropertyFromText {
                target: TargetView::WebRtcBin,
                property: "stun-server"@,
                text: "stun://stun.l.google.com:19302"@,
            },
        ),
    ]
}

/// The application as it is before anything happens.
pub open spec fn prepared_app(peer_id: Option<Seq<char>>, rtx: bool) -> AppView {
    AppView {
        peer_id,
        pipeline: "webrtcbin"@ + "_pipeline"@,
        webrtcbin: "webrtcbin"@ + "_webrtcbin"@,
        rtx,
    }
}

/// Creates the application control logic, and lists the steps that make its pipeline ready.
pub fn prepare(peer_id: Option<String>, rtx: bool) -> (prepared: (App, Vec<Step>))
    ensures
        prepared.0@ == prepared_app(optional_text(peer_id), rtx),
        step_views(prepared.1@) == preparation(),
{
    let (webrtcbin, mut steps) = WebRtcBin::new("webrtcbin");
    steps.push(webrtcbin.set_bundle_policy(RtcBundlePolicy::MaxBundle));
    steps.push(webrtcbin.set_stun_server(STUN_SERVER));
    assert(step_views(steps@) =~= preparation());
    (App(Arc::new(AppInner { peer_id, webrtcbin, rtx })), steps)
}

/// The steps that start the client: the connection comes first, then what makes the pipeline
/// ready, and once its messages come to the client, the registration with the server.
pub open spec fn startup_steps(
    url: Seq<char>,
    ready: Seq<StepView>,
    registration: StepView,
) -> Seq<StepView> {
    seq![or_return(CallView::ConnectServer { url })] + ready + seq![
        or_abort(CallView::WatchBus),
        registration,
    ]
}

/// Lists the steps that start a client, from those that make its pipeline ready and that by
/// which it registers.
pub fn startup(url: String, ready: Vec<Step>, registration: Step) -> (steps: Vec<Step>)
    ensures
        step_views(steps@) == startup_steps(url@, step_views(ready@), registration@),
{
    let mut ready_steps = ready;
    let mut steps: Vec<Step> = Vec::new();
    steps.push(Step::or_return(Call::ConnectServer { url }));
    steps.append(&mut ready_steps);
    steps.push(Step::or_abort(Call::WatchBus));
    steps.push(registration);
    assert(step_views(steps@) =~= startup_steps(url@, step_views(ready@), registration@));
    steps
}

/// Starts the client: creates its control logic and lists the steps after which messages come
/// in, to be handed to [`on_incoming`].
pub fn ws_loop(server: &str, peer_id: Option<String>, rtx: bool) -> (session: Result<
    (App, Vec<Step>),
    AppError,
>)
    ensures
        match parsed_url(server@) {
            Err(text) => session matches Err(error) && error@ == AppErrorView::Url(text),
            Ok(url) => {
                &&& session is Ok
                &&& session->Ok_0.0@ == prepared_app(optional_text(peer_id), rtx)
                &&& exists|our_id: nat|
                    10 <= our_id < 10_000 && step_views(session->Ok_0.1@) == startup_steps(
                        url,
                        preparation(),
                        or_abort(text_sent(#[trigger] registration(our_id)).call),
                    )
            },
        },
{
    let url = match server_address(server) {
        Ok(url) => url,
        Err(error) => return Err(error),
    };
    let (app, ready) = prepare(peer_id, rtx);
    let registration = app.register_with_server();
    let steps = startup(url, ready, registration);
    Ok((app, steps))
}

/// What the client waits for.
#[derive(Debug, PartialEq, Eq)]
pub enum Incoming {
    /// A message from the WebSocket, or the error that reading from it failed with.
    WebSocket(Result<WsMessage, String>),
    /// A message from the bus of the pipeline.
    Pipeline(PipelineMessage),
    /// A message that we made ourselves, to be sent out.
    Outgoing(WsMessage),
    /// All the sources of messages are exhausted.
    Complete,
}

/// What the client does next.
#[derive(Debug)]
pub enum Turn {
    /// Carry on with the handling of a message; its result goes to [`after_handling`].
    Handle(Flow),
    /// Write the message to the WebSocket; the result goes to [`after_sending`].
    Send(WsMessage),
    /// Wait for the next message.
    Wait,
    /// Leave.
    Exit(Result<(), AppError>),
}

/// The contents of a [`Turn`].
pub enum TurnView {
    Handle(FlowView),
    Send(WsMessageView),
    Wait,
    Exit(Result<(), AppErrorView>),
}

impl View for Turn {
    type V = TurnView;

    open spec fn view(&self) -> TurnView {
        match self {
            Turn::Handle(flow) => TurnView::Handle(flow@),
            Turn::Send(message) => TurnView::Send(message@),
            Turn::Wait => TurnView::Wait,
            Turn::Exit(Ok(())) => TurnView::Exit(Ok(())),
            Turn::Exit(Err(error)) => TurnView::Exit(Err(error@)),
        }
    }
}

/// What the client does once a message is handled with this result.
pub open spec fn turn_after_handling(
    result: Result<Option<WsMessageView>, AppErrorView>,
) -> TurnView {
    match result {
        Ok(Some(message)) => TurnView::Send(message),
        Ok(None) => TurnView::Wait,
        Err(error) => TurnView::Exit(Err(error)),
    }
}

/// What the client does once a message is written with this result.
pub open spec fn turn_after_sending(result: Result<(), Seq<char>>) -> TurnView {
    match result {
        Ok(()) => TurnView::Wait,
        Err(text) => TurnView::Exit(Err(AppErrorView::Transport(text))),
    }
}

/// What the client does about something that came in.
pub open spec fn turn(app: AppView, incoming: Incoming) -> TurnView {
    match incoming {
        Incoming::WebSocket(Ok(message)) => TurnView::Handle(message_handled(app, message@)),
        Incoming::WebSocket(Err(text)) => TurnView::Exit(Err(AppErrorView::Transport(text@))),
        Incoming::Pipeline(message) => turn_after_handling(pipeline_message_handled(message@)),
        Incoming::Outgoing(message) => TurnView::Send(message@),
        Incoming::Complete => TurnView::Exit(Ok(())),
    }
}

/// Decides what the client does about something that came in.
pub fn on_incoming(app: &App, incoming: Incoming) -> (next: Turn)
    requires
        incoming matches Incoming::Pipeline(PipelineMessage::Warning { debug }) ==> debug is Some,
    ensures
        next@ == turn(app@, incoming),
{
    match incoming {
        // WebSocket messages go to the control logic, which may have a message to send out.
        Incoming::WebSocket(Ok(message)) => Turn::Handle(app.handle_websocket_message(message)),
        Incoming::WebSocket(Err(text)) => Turn::Exit(Err(AppError::Transport(text))),
        // So do messages of the pipeline.
        Incoming::Pipeline(message) => after_handling(app.handle_pipeline_message(message)),
        // Our own messages are sent out now.
        Incoming::Outgoing(message) => Turn::Send(message),
        Incoming::Complete => Turn::Exit(Ok(())),
    }
}

/// Decides what the client does once a message is handled.
pub fn after_handling(result: Result<Option<WsMessage>, AppError>) -> (next: Turn)
    ensures
        next@ == turn_after_handling(handling_result(result)),
{
    match result {
        Ok(Some(message)) => Turn::Send(message),
        Ok(None) => Turn::Wait,
        Err(error) => Turn::Exit(Err(error)),
    }
}

/// Decides what the client does once a message is written to the WebSocket, or failed to be.
pub fn after_sending(result: Result<(), String>) -> (next: Turn)
    ensures
        next@ == turn_after_sending(call_result(result)),
{
    match result {
        Ok(()) => Turn::Wait,
        Err(text) => Turn::Exit(Err(AppError::Transport(text))),
    }
}

/// What a turn comes to: the handling of a message that is done at once leads to the next turn.
pub open spec fn settled(next: TurnView) -> TurnView {
    match next {
        TurnView::Handle(FlowView::Done(result)) => turn_after_handling(result),
        _ => next,
    }
}

/// A ping is answered with a pong that carries the same data, and a request to close with a
/// close message; neither a pong nor binary data is answered.
pub proof fn law_protocol_messages(app: AppView, message: WsMessage)
    requires
        message@ !is Text,
    ensures
        settled(turn(app, Incoming::WebSocket(Ok(message)))) == (match message@ {
            WsMessageView::Ping(data) => TurnView::Send(WsMessageView::Pong(data)),
            WsMessageView::Close(_) => TurnView::Send(WsMessageView::Close(None)),
            _ => TurnView::Wait,
        }),
{
}

/// A registered client that was started with a peer to call asks the server for a session with
/// it; one without waits.
pub proof fn law_greeting_starts_the_call(app: AppView, greeting: WsMessage)
    requires
        greeting@ == WsMessageView::Text("HELLO"@),
    ensures
        settled(turn(app, Incoming::WebSocket(Ok(greeting)))) == (match app.peer_id {
            Some(peer_id) => TurnView::Send(WsMessageView::Text("SESSION "@ + peer_id)),
            None => TurnView::Wait,
        }),
{
}

/// An error that the server reports ends the client with the text of the report.
pub proof fn law_server_errors_end_the_client(
    app: AppView,
    report: WsMessage,
    details: Seq<char>,
)
    requires
        report@ == WsMessageView::Text("ERROR"@ + details),
    ensures
        settled(turn(app, Incoming::WebSocket(Ok(report)))) == TurnView::Exit(
            Err(AppErrorView::Peer("ERROR"@ + details)),
        ),
{
    law_reported_errors_are_returned(app, details);
}

/// Of the messages of the pipeline, exactly the errors end the client.
pub proof fn law_pipeline_errors_end_the_client(app: AppView, message: PipelineMessage)
    ensures
        turn(app, Incoming::Pipeline(message)) is Exit <==> message is Error,
        message !is Error ==> turn(app, Incoming::Pipeline(message)) == TurnView::Wait,
        turn(app, Incoming::Pipeline(message)) != TurnView::Exit(Ok(())),
{
}

/// Without a connection to the server nothing else is called, and the client ends with the
/// reason.
pub proof fn law_no_connection_no_pipeline(
    url: Seq<char>,
    ready: Seq<StepView>,
    registration: StepView,
    reason: Seq<char>,
    later: Seq<Result<(), Seq<char>>>,
)
    ensures
        run(started(startup_steps(url, ready, registration)), seq![Err(reason)] + later)
            == VerdictView::Failed(AppErrorView::Transport(reason)),
        calls_made(started(startup_steps(url, ready, registration)), seq![Err(reason)] + later)
            == seq![CallView::ConnectServer { url }],
{
    let steps = startup_steps(url, ready, registration);
    let results = seq![Err::<(), Seq<char>>(reason)] + later;
    assert(steps[0] == or_return(CallView::ConnectServer { url }));
    assert(!goes_on(steps[0], results[0]));
    law_run_stops_at_failure(steps, results, 0);
    assert(calls(steps.take(1)) =~= seq![CallView::ConnectServer { url }]);
}

/// What the client does about everything that comes in: what cannot be read ends it with the
/// reason, its own messages are written as they are, and when nothing can come in any more, it
/// leaves without an error.
pub proof fn law_turns(
    app: AppView,
    message: WsMessage,
    report: PipelineMessage,
    reason: String,
)
    ensures
        turn(app, Incoming::WebSocket(Ok(message))) == TurnView::Handle(
            message_handled(app, message@),
        ),
        turn(app, Incoming::WebSocket(Err(reason))) == TurnView::Exit(
            Err(AppErrorView::Transport(reason@)),
        ),
        turn(app, Incoming::Outgoing(message)) == TurnView::Send(message@),
        turn(app, Incoming::Complete) == TurnView::Exit(Ok(())),
        report@ !is Error ==> turn(app, Incoming::Pipeline(report)) == TurnView::Wait,
        pipeline_message_handled(report@) is Err ==> turn(app, Incoming::Pipeline(report))
            == TurnView::Exit(Err(pipeline_message_handled(report@)->Err_0)),
{
}

/// A reply is written as it is, without one the client waits, and an error ends it; once a message
/// is written, the client waits, and if it cannot be written, that ends the client with the reason.
pub proof fn law_turns_go_on(reply: WsMessageView, error: AppErrorView, reason: Seq<char>)
    ensures
        turn_after_handling(Ok(Some(reply))) == TurnView::Send(reply),
        turn_after_handling(Ok(None)) == TurnView::Wait,
        turn_after_handling(Err(error)) == TurnView::Exit(Err(error)),
        turn_after_sending(Ok(())) == TurnView::Wait,
        turn_after_sending(Err(reason)) == TurnView::Exit(Err(AppErrorView::Transport(reason))),
{
}

/// An address that is a URL is connected to as such, and one that is none is an error with the
/// reason.
pub proof fn law_addresses_are_urls(url: Seq<char>, reason: Seq<char>)
    ensures
        address(Ok(url)) == Ok::<Seq<char>, AppErrorView>(url),
        address(Err(reason)) == Err::<Seq<char>, AppErrorView>(AppErrorView::Url(reason)),
{
}

/// A pipeline that is made ready for sessions holds webrtcbin, under the names that the
/// application knows, which bundles as much as it can and finds its own address through the
/// public server.
pub proof fn law_prepared_pipeline(peer_id: Option<Seq<char>>, rtx: bool)
    ensures
        ({
            let steps = preparation();
            let graph = built(empty_graph(), steps, steps.len())->0;
            &&& built(empty_graph(), steps, steps.len()) is Some
            &&& graph.made == seq!["webrtcbin"@]
            &&& graph.named == seq![Some("webrtcbin"@ + "_webrtcbin"@)]
            &&& graph.added.contains(0)
            &&& graph.settings == seq![
                (TargetView::WebRtcBin, "bundle-policy"@, Setting::Text("max-bundle"@)),
                (
                    TargetView::WebRtcBin,
                    "stun-server"@,
                    Setting::Text("stun://stun.l.google.com:19302"@),
                ),
            ]
            &&& graph.others == seq![
                CallView::NewPipeline { pipeline: "webrtcbin"@ + "_pipeline"@ },
                CallView::SetState { state: PipelineState::Ready },
            ]
            &&& forall|i: int|
                0 <= i < steps.len() ==> (#[trigger] steps[i]).on_failure == failure_means(
                    steps[i].call,
                )
        }),
        prepared_app(peer_id, rtx).peer_id == peer_id,
        prepared_app(peer_id, rtx).rtx == rtx,
        prepared_app(peer_id, rtx).pipeline == "webrtcbin"@ + "_pipeline"@,
        prepared_app(peer_id, rtx).webrtcbin == "webrtcbin"@ + "_webrtcbin"@,
{
    let steps = preparation();
    let elements = seq![0nat];
    assert(elements[0] == 0);
    assert(elements.to_set() =~= set![0nat]);
    reveal_with_fuel(built, 7);
    let graph = built(empty_graph(), steps, 6)->0;
    assert(graph.made =~= seq!["webrtcbin"@]);
    assert(graph.named =~= seq![Some("webrtcbin"@ + "_webrtcbin"@)]);
    assert(graph.settings.len() == 2);
    assert(graph.others =~= seq![steps[0].call, steps[3].call]);
}

/// A client starts with the connection to the server, whose failure is returned; then come the
/// steps that make the pipeline ready, all of them and in order, then the bus, and last the
/// registration.
pub proof fn law_start_in_order(
    url: Seq<char>,
    ready: Seq<StepView>,
    registration: StepView,
    i: int,
)
    ensures
        startup_steps(url, ready, registration).len() == ready.len() + 3,
        startup_steps(url, ready, registration)[0] == (StepView {
            call: CallView::ConnectServer { url },
            on_failure: OnFailure::Return,
        }),
        0 <= i < ready.len() ==> startup_steps(url, ready, registration)[i + 1] == ready[i],
        startup_steps(url, ready, registration)[ready.len() as int + 1] == (StepView {
            call: CallView::WatchBus,
            on_failure: OnFailure::Abort,
        }),
        startup_steps(url, ready, registration).last() == registration,
{
}

} // verus!
