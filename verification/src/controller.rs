//! The check-in controller: one step of the agent's cycle at a time.
//!
//! The agent alternates between asking for something to be done, an
//! [`Action`], and learning how it went, an [`Event`]. [`step`] takes the
//! phase the agent is in and the event that arrived, and answers with the
//! next phase and the next action. The caller performs the action, whatever
//! it takes, and comes back with the event.
//!
//! While it runs, the agent asks for the status, checks in where that has
//! not happened today, announces what it earned, asks when the service
//! refreshes and sleeps until then. Whatever goes wrong on that way ends
//! the cycle: the agent reports the error, announces its cooldown, waits six
//! hours and starts afresh.

use crate::api::{
    awards_of, ApiClient, Award, HomeData, InfoData, Method, RecommendData, Reply, Request,
    RequestView, SignData,
};
use crate::error::AgentError;
use crate::notify::{
    check_delivery, delivery_outcome, failure_body, message_body, notify_err, notify_msg, posted,
    success_body, Delivery, PostView, WebhookPost,
};
use crate::reward::{notify_signed, reward_of, signed_notice, Reward};
use crate::schedule::{sleep_of, sleep_until_refresh, COOLDOWN_SECS};
use vstd::prelude::*;
use vstd::string::*;

verus! {

/// What the agent is configured with, once and for all at its start.
pub struct Config {
    /// The gateway to the service.
    pub client: ApiClient,
    /// Where notifications go; without it the agent runs silently.
    pub webhook_url: Option<String>,
}

/// Where the agent is in its cycle: which answer it is waiting for.
#[derive(Debug, PartialEq, Eq)]
pub enum Phase {
    /// Asked for the status, to learn whether today's check-in is due.
    FetchingStatus,
    /// Submitted the check-in.
    SubmittingCheckIn,
    /// Checked in, and asked for the list of awards.
    FetchingAwards,
    /// Holds the awards, and asked for the status after the check-in.
    ConfirmingStatus { awards: Vec<Award> },
    /// Posted the notice of the reward.
    AnnouncingSuccess,
    /// Asked when the service refreshes next.
    FetchingRefresh,
    /// Sleeping until just past the refresh.
    Sleeping,
    /// A cycle failed, and the report of the error was posted.
    ReportingFailure,
    /// Posted the announcement of the cooldown.
    AnnouncingCooldown,
    /// Waiting out the cooldown.
    CoolingDown,
}

/// The two states of the supervisor.
#[derive(Debug, Clone, Copy, PartialEq, Eq, Structural)]
pub enum Mode {
    /// A business cycle is under way.
    Running,
    /// A cycle failed; the agent is on its way through the cooldown.
    Cooldown,
}

/// What the caller reports back after it has performed an action.
#[derive(Debug, PartialEq, Eq)]
pub enum Event {
    /// The status query came back.
    Status(Reply<InfoData>),
    /// The check-in came back.
    CheckIn(Reply<SignData>),
    /// The home query came back.
    Awards(Reply<HomeData>),
    /// The refresh recommendation came back.
    Refresh(Reply<RecommendData>),
    /// A post to the webhook was attempted.
    Delivered(Delivery),
    /// The sleep is over.
    Elapsed,
}

/// What the caller is to do next.
#[derive(Debug, PartialEq, Eq)]
pub enum Action {
    /// Send the status query; report `Event::Status`.
    FetchStatus(Request),
    /// Send the check-in; report `Event::CheckIn`.
    SubmitCheckIn(Request),
    /// Send the home query; report `Event::Awards`.
    FetchAwards(Request),
    /// Send the refresh recommendation query; report `Event::Refresh`.
    FetchRefresh(Request),
    /// Post to the webhook; report `Event::Delivered`.
    Deliver(WebhookPost),
    /// Sleep for this many seconds, doing nothing else; report
    /// `Event::Elapsed`.
    Sleep(u64),
}

/// What a step has to tell the operator.
#[derive(Debug, PartialEq, Eq)]
pub enum Report {
    /// Nothing of note.
    Nothing,
    /// The check-in went through and earned this.
    Rewarded(Reward),
    /// The cycle ended with this error.
    Failed(AgentError),
}

/// The result of one step.
#[derive(Debug, PartialEq, Eq)]
pub struct Step {
    /// The phase the agent is in from now on.
    pub phase: Phase,
    /// What the caller is to do next.
    pub action: Action,
    /// What happened in this step.
    pub report: Report,
}

/// An action as plain values.
pub enum ActionView {
    FetchStatus(RequestView),
    SubmitCheckIn(RequestView),
    FetchAwards(RequestView),
    FetchRefresh(RequestView),
    Deliver(PostView),
    Sleep(u64),
}

/// A step as plain values.
pub struct StepView {
    pub phase: Phase,
    pub action: ActionView,
    pub report: Report,
}

impl DeepView for Action {
    type V = ActionView;

    open spec fn deep_view(&self) -> ActionView {
        match self {
            Action::FetchStatus(request) => ActionView::FetchStatus(request.deep_view()),
            Action::SubmitCheckIn(request) => ActionView::SubmitCheckIn(request.deep_view()),
            Action::FetchAwards(request) => ActionView::FetchAwards(request.deep_view()),
            Action::FetchRefresh(request) => ActionView::FetchRefresh(request.deep_view()),
            Action::Deliver(post) => ActionView::Deliver(post.deep_view()),
            Action::Sleep(seconds) => ActionView::Sleep(*seconds),
        }
    }
}

impl DeepView for Step {
    type V = StepView;

    open spec fn deep_view(&self) -> StepView {
        StepView { phase: self.phase, action: self.action.deep_view(), report: self.report }
    }
}

impl Phase {
    /// The state of the supervisor in this phase.
    pub open spec fn mode(self) -> Mode {
        match self {
            Phase::ReportingFailure | Phase::AnnouncingCooldown | Phase::CoolingDown => {
                Mode::Cooldown
            },
            _ => Mode::Running,
        }
    }

    /// Tells the state of the supervisor in this phase.
    pub fn supervisor(&self) -> (mode: Mode)
        ensures
            mode == self.mode(),
    {
        match self {
            Phase::ReportingFailure | Phase::AnnouncingCooldown | Phase::CoolingDown => {
                Mode::Cooldown
            },
            _ => Mode::Running,
        }
    }
}

impl Config {
    /// The webhook's address, where one is configured.
    pub open spec fn webhook(&self) -> Option<Seq<char>> {
        self.webhook_url.deep_view()
    }
}

/// A step that has nothing to report.
pub open spec fn quiet(phase: Phase, action: ActionView) -> StepView {
    StepView { phase, action, report: Report::Nothing }
}

/// The start of a cycle: ask for the status.
pub open spec fn begin_cycle(cfg: Config) -> StepView {
    quiet(
        Phase::FetchingStatus,
        ActionView::FetchStatus(cfg.client.request(Method::Get, "info"@)),
    )
}

/// The end of a cycle's work: ask when the service refreshes.
pub open spec fn begin_refresh(cfg: Config, report: Report) -> StepView {
    StepView {
        phase: Phase::FetchingRefresh,
        action: ActionView::FetchRefresh(cfg.client.request(Method::Get, "recommend"@)),
        report,
    }
}

/// What the status decides at the start of a cycle: on to the refresh where
/// the account is signed in today, else the check-in.
pub open spec fn after_status(cfg: Config, info: InfoData) -> StepView {
    if info.is_sign {
        begin_refresh(cfg, Report::Nothing)
    } else {
        quiet(
            Phase::SubmittingCheckIn,
            ActionView::SubmitCheckIn(cfg.client.request(Method::Post, "sign"@)),
        )
    }
}

/// What follows the status after a check-in: the reward is reported, and
/// its notice posted where there is a webhook.
pub open spec fn after_confirmation(cfg: Config, awards: Seq<Award>, info: InfoData) -> Result<
    StepView,
    AgentError,
> {
    match signed_notice(cfg.webhook(), awards, info) {
        Ok((reward, Some(post))) => Ok(
            StepView {
                phase: Phase::AnnouncingSuccess,
                action: ActionView::Deliver(post),
                report: Report::Rewarded(reward),
            },
        ),
        Ok((reward, None)) => Ok(begin_refresh(cfg, Report::Rewarded(reward))),
        Err(e) => Err(e),
    }
}

/// One step of the business cycle: the next step, or the error that ends
/// the cycle. An event that does not answer the request of the phase is such
/// an error, and so is any event in a phase of the cooldown, which is no
/// part of the cycle.
pub open spec fn run_spec(cfg: Config, phase: Phase, event: Event) -> Result<StepView, AgentError> {
    match phase {
        Phase::FetchingStatus => match event {
            Event::Status(reply) => match reply.read() {
                Ok(info) => Ok(after_status(cfg, info)),
                Err(e) => Err(AgentError::Api(e)),
            },
            _ => Err(AgentError::UnexpectedEvent),
        },
        Phase::SubmittingCheckIn => match event {
            Event::CheckIn(reply) => match reply.confirmed() {
                Ok(_) => Ok(
                    quiet(
                        Phase::FetchingAwards,
                        ActionView::FetchAwards(cfg.client.request(Method::Get, "home"@)),
                    ),
                ),
                Err(e) => Err(AgentError::Api(e)),
            },
            _ => Err(AgentError::UnexpectedEvent),
        },
        Phase::FetchingAwards => match event {
            Event::Awards(reply) => match awards_of(reply.read()) {
                Ok(awards) => Ok(
                    quiet(
                        Phase::ConfirmingStatus { awards },
                        ActionView::FetchStatus(cfg.client.request(Method::Get, "info"@)),
                    ),
                ),
                Err(e) => Err(AgentError::Api(e)),
            },
            _ => Err(AgentError::UnexpectedEvent),
        },
        Phase::ConfirmingStatus { awards } => match event {
            Event::Status(reply) => match reply.read() {
                Ok(info) => after_confirmation(cfg, awards@, info),
                Err(e) => Err(AgentError::Api(e)),
            },
            _ => Err(AgentError::UnexpectedEvent),
        },
        Phase::AnnouncingSuccess => match event {
            Event::Delivered(delivery) => match delivery_outcome(delivery) {
                Ok(_) => Ok(begin_refresh(cfg, Report::Nothing)),
                Err(e) => Err(AgentError::Notify(e)),
            },
            _ => Err(AgentError::UnexpectedEvent),
        },
        Phase::FetchingRefresh => match event {
            Event::Refresh(reply) => match sleep_of(reply.read()) {
                Ok(seconds) => Ok(quiet(Phase::Sleeping, ActionView::Sleep(seconds))),
                Err(e) => Err(e),
            },
            _ => Err(AgentError::UnexpectedEvent),
        },
        Phase::Sleeping => match event {
            Event::Elapsed => Ok(begin_cycle(cfg)),
            _ => Err(AgentError::UnexpectedEvent),
        },
        _ => Err(AgentError::UnexpectedEvent),
    }
}

/// The wait of the cooldown: six hours.
pub open spec fn cool_down(report: Report) -> StepView {
    StepView { phase: Phase::CoolingDown, action: ActionView::Sleep(COOLDOWN_SECS), report }
}

/// The announcement of the cooldown, or without a webhook the cooldown
/// itself.
pub open spec fn announce_cooldown(cfg: Config, report: Report) -> StepView {
    match posted(cfg.webhook(), message_body("sleeping for six hours..."@)) {
        Some(post) => StepView {
            phase: Phase::AnnouncingCooldown,
            action: ActionView::Deliver(post),
            report,
        },
        None => cool_down(report),
    }
}

/// What the supervisor does with the error that ended a cycle: it reports
/// the error, to the webhook where there is one, and heads for the cooldown.
pub open spec fn recover(cfg: Config, error: AgentError) -> StepView {
    match posted(cfg.webhook(), failure_body(error.text())) {
        Some(post) => StepView {
            phase: Phase::ReportingFailure,
            action: ActionView::Deliver(post),
            report: Report::Failed(error),
        },
        None => announce_cooldown(cfg, Report::Failed(error)),
    }
}

/// One step of the agent. While a cycle runs, the step is that of the
/// cycle, and an error hands over to the cooldown. On the way through the
/// cooldown no event can hold the agent up: whatever became of its posts, it
/// goes on to wait, and when the wait is over a fresh cycle starts.
pub open spec fn step_spec(cfg: Config, phase: Phase, event: Event) -> StepView {
    match phase {
        Phase::ReportingFailure => announce_cooldown(cfg, Report::Nothing),
        Phase::AnnouncingCooldown => cool_down(Report::Nothing),
        Phase::CoolingDown => match event {
            Event::Elapsed => begin_cycle(cfg),
            _ => cool_down(Report::Nothing),
        },
        _ => match run_spec(cfg, phase, event) {
            Ok(next) => next,
            Err(e) => recover(cfg, e),
        },
    }
}

fn fetch_status(cfg: &Config) -> (s: Step)
    ensures
        s.deep_view() == begin_cycle(*cfg),
{
    Step {
        phase: Phase::FetchingStatus,
        action: Action::FetchStatus(cfg.client.get_request("info")),
        report: Report::Nothing,
    }
}

fn fetch_refresh(cfg: &Config, report: Report) -> (s: Step)
    ensures
        s.deep_view() == begin_refresh(*cfg, report),
{
    Step {
        phase: Phase::FetchingRefresh,
        action: Action::FetchRefresh(cfg.client.get_request("recommend")),
        report,
    }
}

fn wait_cooldown(report: Report) -> (s: Step)
    ensures
        s.deep_view() == cool_down(report),
{
    Step { phase: Phase::CoolingDown, action: Action::Sleep(COOLDOWN_SECS), report }
}

fn post_cooldown_notice(cfg: &Config, report: Report) -> (s: Step)
    ensures
        s.deep_view() == announce_cooldown(*cfg, report),
{
    match notify_msg(&cfg.webhook_url, "sleeping for six hours...") {
        Some(post) => Step {
            phase: Phase::AnnouncingCooldown,
            action: Action::Deliver(post),
            report,
        },
        None => wait_cooldown(report),
    }
}

fn report_failure(cfg: &Config, error: AgentError) -> (s: Step)
    ensures
        s.deep_view() == recover(*cfg, error),
{
    match notify_err(&cfg.webhook_url, &error) {
        Some(post) => Step {
            phase: Phase::ReportingFailure,
            action: Action::Deliver(post),
            report: Report::Failed(error),
        },
        None => post_cooldown_notice(cfg, Report::Failed(error)),
    }
}

/// The step result as plain values.
pub open spec fn outcome_view(r: Result<Step, AgentError>) -> Result<StepView, AgentError> {
    match r {
        Ok(next) => Ok(next.deep_view()),
        Err(e) => Err(e),
    }
}

/// The first step of the agent: a fresh cycle.
pub fn start(cfg: &Config) -> (s: Step)
    ensures
        s.deep_view() == begin_cycle(*cfg),
{
    fetch_status(cfg)
}

/// One step of the business cycle. An error ends the cycle; it is for the
/// supervisor to deal with.
pub fn run(cfg: &Config, phase: Phase, event: Event) -> (r: Result<Step, AgentError>)
    ensures
        outcome_view(r) == run_spec(*cfg, phase, event),
{
    match phase {
        Phase::FetchingStatus => match event {
            Event::Status(reply) => match cfg.client.get_info(reply) {
                Ok(info) => {
                    if info.is_sign {
                        Ok(fetch_refresh(cfg, Report::Nothing))
                    } else {
                        Ok(
                            Step {
                                phase: Phase::SubmittingCheckIn,
                                action: Action::SubmitCheckIn(cfg.client.post_request("sign")),
                                report: Report::Nothing,
                            },
                        )
                    }
                },
                Err(e) => Err(AgentError::Api(e)),
            },
            _ => Err(AgentError::UnexpectedEvent),
        },
        Phase::SubmittingCheckIn => match event {
            Event::CheckIn(reply) => match cfg.client.post_sign(reply) {
                Ok(_) => Ok(
                    Step {
                        phase: Phase::FetchingAwards,
                        action: Action::FetchAwards(cfg.client.get_request("home")),
                        report: Report::Nothing,
                    },
                ),
                Err(e) => Err(AgentError::Api(e)),
            },
            _ => Err(AgentError::UnexpectedEvent),
        },
        Phase::FetchingAwards => match event {
            Event::Awards(reply) => match cfg.client.get_awards(reply) {
                Ok(awards) => Ok(
                    Step {
                        phase: Phase::ConfirmingStatus { awards },
                        action: Action::FetchStatus(cfg.client.get_request("info")),
                        report: Report::Nothing,
                    },
                ),
                Err(e) => Err(AgentError::Api(e)),
            },
            _ => Err(AgentError::UnexpectedEvent),
        },
        Phase::ConfirmingStatus { awards } => match event {
            Event::Status(reply) => match cfg.client.get_info(reply) {
                Ok(info) => match notify_signed(&cfg.webhook_url, &awards, &info) {
                    Ok((reward, Some(post))) => Ok(
                        Step {
                            phase: Phase::AnnouncingSuccess,
                            action: Action::Deliver(post),
                            report: Report::Rewarded(reward),
                        },
                    ),
                    Ok((reward, None)) => Ok(fetch_refresh(cfg, Report::Rewarded(reward))),
                    Err(e) => Err(e),
                },
                Err(e) => Err(AgentError::Api(e)),
            },
            _ => Err(AgentError::UnexpectedEvent),
        },
        Phase::AnnouncingSuccess => match event {
            Event::Delivered(delivery) => match check_delivery(delivery) {
                Ok(_) => Ok(fetch_refresh(cfg, Report::Nothing)),
                Err(e) => Err(AgentError::Notify(e)),
            },
            _ => Err(AgentError::UnexpectedEvent),
        },
        Phase::FetchingRefresh => match event {
            Event::Refresh(reply) => match sleep_until_refresh(&cfg.client, reply) {
                Ok(seconds) => Ok(
                    Step {
                        phase: Phase::Sleeping,
                        action: Action::Sleep(seconds),
                        report: Report::Nothing,
                    },
                ),
                Err(e) => Err(e),
            },
            _ => Err(AgentError::UnexpectedEvent),
        },
        Phase::Sleeping => match event {
            Event::Elapsed => Ok(fetch_status(cfg)),
            _ => Err(AgentError::UnexpectedEvent),
        },
        _ => Err(AgentError::UnexpectedEvent),
    }
}

/// One step of the agent: the business cycle under its supervisor.
pub fn step(cfg: &Config, phase: Phase, event: Event) -> (s: Step)
    ensures
        s.deep_view() == step_spec(*cfg, phase, event),
{
    match phase {
        Phase::ReportingFailure => post_cooldown_notice(cfg, Report::Nothing),
        Phase::AnnouncingCooldown => wait_cooldown(Report::Nothing),
        Phase::CoolingDown => match event {
            Event::Elapsed => fetch_status(cfg),
            _ => wait_cooldown(Report::Nothing),
        },
        _ => match run(cfg, phase, event) {
            Ok(next) => next,
            Err(e) => report_failure(cfg, e),
        },
    }
}

/// Where the account is already signed in today, the agent submits no
/// check-in and goes straight on to ask for the refresh.
pub proof fn lemma_signed_today_skips_check_in(cfg: Config, reply: Reply<InfoData>)
    requires
        reply.read() matches Ok(info) && info.is_sign,
    ensures
        step_spec(cfg, Phase::FetchingStatus, Event::Status(reply)) == begin_refresh(
            cfg,
            Report::Nothing,
        ),
{
}

/// After a check-in, the status that comes back decides the reward: where
/// the list holds an award for the day it reports, that reward is reported
/// and, with a webhook, its notice is what is posted next.
pub proof fn lemma_reward_is_announced(
    cfg: Config,
    awards: Vec<Award>,
    reply: Reply<InfoData>,
    url: Seq<char>,
)
    requires
        reply.read() matches Ok(info) && reward_of(awards@, info) is Ok,
        cfg.webhook() == Some(url),
    ensures
        step_spec(cfg, Phase::ConfirmingStatus { awards }, Event::Status(reply)) == (StepView {
            phase: Phase::AnnouncingSuccess,
            action: ActionView::Deliver(
                PostView {
                    url,
                    body: success_body(
                        reward_of(awards@, reply.read()->Ok_0)->Ok_0.title(),
                        reward_of(awards@, reply.read()->Ok_0)->Ok_0.summary(),
                        reward_of(awards@, reply.read()->Ok_0)->Ok_0.icon@,
                    ),
                },
            ),
            report: Report::Rewarded(reward_of(awards@, reply.read()->Ok_0)->Ok_0),
        }),
{
}

/// A check-in is submitted in one situation only: the status that opens a
/// cycle came back and says that the account is not signed in today.
pub proof fn lemma_check_in_only_when_due(cfg: Config, phase: Phase, event: Event)
    requires
        step_spec(cfg, phase, event).action is SubmitCheckIn,
    ensures
        phase is FetchingStatus,
        event matches Event::Status(reply) && (reply.read() matches Ok(info) && !info.is_sign),
{
}

/// The supervisor's rule. A running agent enters the cooldown exactly when
/// its step fails; it then reports that very error. An agent in the cooldown
/// returns to running exactly when the wait is over.
pub proof fn lemma_supervisor_rule(cfg: Config, phase: Phase, event: Event)
    ensures
        phase.mode() == Mode::Running ==> (step_spec(cfg, phase, event).phase.mode()
            == Mode::Cooldown <==> run_spec(cfg, phase, event) is Err),
        phase.mode() == Mode::Running ==> (run_spec(cfg, phase, event) matches Err(e) ==> step_spec(
            cfg,
            phase,
            event,
        ).report == Report::Failed(e)),
        phase.mode() == Mode::Cooldown ==> (step_spec(cfg, phase, event).phase.mode()
            == Mode::Running <==> phase is CoolingDown && event is Elapsed),
{
}

/// With a webhook, the error that ends a cycle is posted to it, in words;
/// without one, the agent goes to wait at once.
pub proof fn lemma_failure_is_reported(cfg: Config, phase: Phase, event: Event)
    requires
        phase.mode() == Mode::Running,
        run_spec(cfg, phase, event) is Err,
    ensures
        cfg.webhook() matches Some(url) ==> step_spec(cfg, phase, event).phase
            == Phase::ReportingFailure && step_spec(cfg, phase, event).action
            == ActionView::Deliver(
            PostView { url, body: failure_body(run_spec(cfg, phase, event)->Err_0.text()) },
        ),
        cfg.webhook() is None ==> step_spec(cfg, phase, event) == cool_down(
            Report::Failed(run_spec(cfg, phase, event)->Err_0),
        ),
{
}

/// Nothing that happens to its posts holds the agent up on its way to the
/// wait: after the report of the error, whatever the events, the second step
/// at the latest is the wait.
pub proof fn lemma_cooldown_is_reached(cfg: Config, first: Event, second: Event)
    ensures
        step_spec(cfg, Phase::AnnouncingCooldown, first) == cool_down(Report::Nothing),
        step_spec(cfg, Phase::ReportingFailure, first).phase is AnnouncingCooldown || step_spec(
            cfg,
            Phase::ReportingFailure,
            first,
        ) == cool_down(Report::Nothing),
        step_spec(cfg, Phase::ReportingFailure, first).phase is AnnouncingCooldown ==> step_spec(
            cfg,
            step_spec(cfg, Phase::ReportingFailure, first).phase,
            second,
        ) == cool_down(Report::Nothing),
{
}

/// The wait of the cooldown is always six hours, and a fresh cycle follows
/// it, starting with the status.
pub proof fn lemma_cooldown_then_restart(cfg: Config, phase: Phase, event: Event)
    ensures
        step_spec(cfg, phase, event).phase is CoolingDown ==> step_spec(cfg, phase, event).action
            == ActionView::Sleep(COOLDOWN_SECS),
        step_spec(cfg, Phase::CoolingDown, Event::Elapsed) == begin_cycle(cfg),
        COOLDOWN_SECS == 6 * 60 * 60,
{
}

/// An agent without a webhook never posts anything.
pub proof fn lemma_no_post_without_webhook(cfg: Config, phase: Phase, event: Event)
    requires
        cfg.webhook() is None,
    ensures
        !(step_spec(cfg, phase, event).action is Deliver),
{
}

} // verus!
