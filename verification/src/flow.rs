//! The life of the consent record, as a machine that decides and never acts: it
//! says what is to be done next (read the store, ask the operator, write the
//! store, stop), and is told how that went.
//!
//! A record that is found is used as it is. One that cannot be read or understood
//! ends the flow with an error, and is never replaced. Where none is found, a
//! process without an operator gets a record that refuses, without a question;
//! with an operator, the disclosure is shown and the answer decides. A new record
//! is written before it is handed out.

use crate::config::{
    directory_not_text, is_random_identifier, no_project_directories, SaveOutcome, SaveRequest,
    TelemetryConfig, CONFIG_FILE_NAME,
};
use crate::error::{TelemetryError, TelemetryErrorView, TelemetryResult};
use crate::keys::text_of;
use crate::text::{has_suffix, join};
use crate::utils::{affirmative, is_affirmative, is_interactive, yes_no_prompt, Environment};
use vstd::prelude::*;

verus! {

/// What the store holds at the place of the record.
#[derive(Debug)]
pub enum StoredConfig {
    /// There is no file.
    Missing,
    /// There is a file, and it could not be opened; the reason.
    Unreadable(String),
    /// There is a file, and its content is no record; the reason.
    Malformed(String),
    /// The record that the file holds.
    Found(TelemetryConfig),
}

/// What the flow is told.
#[derive(Debug)]
pub enum FlowEvent {
    /// The store was read.
    Stored(StoredConfig),
    /// The operator was asked; the line that was read, if one could be read.
    Answer(Option<String>),
    /// The store was written, or not.
    Saved(SaveOutcome),
}

/// What the flow wants done.
#[derive(Debug)]
pub enum FlowAction {
    /// Read the record at this path and report with `FlowEvent::Stored`.
    Load(String),
    /// Show these lines, read one line and report with `FlowEvent::Answer`.
    Ask(Vec<String>),
    /// Write the record and report with `FlowEvent::Saved`.
    Save(SaveRequest),
    /// The flow has ended, with the record or with an error.
    Finish(TelemetryResult<TelemetryConfig>),
}

/// Where the flow stands.
#[derive(Debug)]
pub enum FlowStage {
    /// It waits for what the store holds.
    Loading,
    /// It waits for the operator's answer.
    Asking,
    /// It waits for this record to be written.
    Saving(TelemetryConfig),
    /// It has ended.
    Finished,
}

/// The flow for one record.
#[derive(Debug)]
pub struct ConsentFlow {
    /// The place of the record.
    pub path: String,
    /// Whether an operator can be asked.
    pub interactive: bool,
    pub stage: FlowStage,
}

/// Each text of a list as a sequence of characters.
pub open spec fn texts(lines: Seq<String>) -> Seq<Seq<char>> {
    lines.map_values(|line: String| line@)
}

/// What the operator is shown before the decision: what is collected, what is
/// not, and the question.
pub open spec fn consent_request() -> Seq<Seq<char>> {
    seq![
        "Help us improve ZKsync by sending anonymous usage data."@,
        "We collect:"@,
        "  - Basic usage statistics"@,
        "  - Error reports"@,
        "  - Platform information"@,
        ""@,
        "We DO NOT collect:"@,
        "  - Personal information"@,
        "  - Sensitive configuration"@,
        "  - Private keys or addresses"@,
        "Would you like to enable telemetry?"@ + " (y/n)"@,
    ]
}

/// The error for an event that does not answer what the flow asked for.
pub open spec fn out_of_turn() -> TelemetryErrorView {
    TelemetryErrorView::InitializationError("Unexpected event for the consent flow"@)
}

/// The flow ends with this error.
pub open spec fn fails_with(
    post: ConsentFlow,
    action: FlowAction,
    expected: TelemetryErrorView,
) -> bool {
    &&& post.stage is Finished
    &&& action matches FlowAction::Finish(Err(error))
    &&& error@ == expected
}

/// The flow ends with this record.
pub open spec fn finishes_with(
    post: ConsentFlow,
    action: FlowAction,
    config: TelemetryConfig,
) -> bool {
    &&& post.stage is Finished
    &&& action == FlowAction::Finish(Ok(config))
}

/// The flow makes a new record with the given decision, kept at the flow's path,
/// asks for it to be written and waits for that.
pub open spec fn creates(
    pre: ConsentFlow,
    enabled: bool,
    post: ConsentFlow,
    action: FlowAction,
) -> bool {
    &&& action matches FlowAction::Save(save)
    &&& save.path == pre.path
    &&& save.config.enabled == enabled
    &&& save.config.config_path == Some(pre.path)
    &&& is_random_identifier(save.config.instance_id@)
    &&& save.config.wf()
    &&& post.stage == FlowStage::Saving(save.config)
}

/// One step of the flow: in state `pre` it is told `event`, goes to `post` and
/// wants `action` done. The identifier and the time of a new record are not
/// determined; everything else is.
pub open spec fn transition(
    pre: ConsentFlow,
    event: FlowEvent,
    post: ConsentFlow,
    action: FlowAction,
) -> bool {
    &&& post.path == pre.path
    &&& post.interactive == pre.interactive
    &&& match (pre.stage, event) {
        (FlowStage::Loading, FlowEvent::Stored(StoredConfig::Found(config))) => finishes_with(
            post,
            action,
            config,
        ),
        (FlowStage::Loading, FlowEvent::Stored(StoredConfig::Unreadable(reason))) => fails_with(
            post,
            action,
            TelemetryErrorView::ConfigError("Failed to open config file: "@ + reason@),
        ),
        (FlowStage::Loading, FlowEvent::Stored(StoredConfig::Malformed(reason))) => fails_with(
            post,
            action,
            TelemetryErrorView::ConfigError("Failed to parse config: "@ + reason@),
        ),
        (FlowStage::Loading, FlowEvent::Stored(StoredConfig::Missing)) => if pre.interactive {
            &&& post.stage is Asking
            &&& action matches FlowAction::Ask(lines)
            &&& texts(lines@) == consent_request()
        } else {
            creates(pre, false, post, action)
        },
        (FlowStage::Asking, FlowEvent::Answer(answer)) => creates(
            pre,
            affirmative(text_of(answer)),
            post,
            action,
        ),
        (FlowStage::Saving(config), FlowEvent::Saved(outcome)) => match outcome.creation_error() {
            None => finishes_with(post, action, config),
            Some(error) => fails_with(post, action, error),
        },
        _ => fails_with(post, action, out_of_turn()),
    }
}

/// The lines that the operator is shown.
pub fn consent_request_lines() -> (lines: Vec<String>)
    ensures
        texts(lines@) == consent_request(),
{
    let mut lines: Vec<String> = Vec::new();
    lines.push(String::from_str("Help us improve ZKsync by sending anonymous usage data."));
    lines.push(String::from_str("We collect:"));
    lines.push(String::from_str("  - Basic usage statistics"));
    lines.push(String::from_str("  - Error reports"));
    lines.push(String::from_str("  - Platform information"));
    lines.push(String::from_str(""));
    lines.push(String::from_str("We DO NOT collect:"));
    lines.push(String::from_str("  - Personal information"));
    lines.push(String::from_str("  - Sensitive configuration"));
    lines.push(String::from_str("  - Private keys or addresses"));
    lines.push(yes_no_prompt("Would you like to enable telemetry?"));
    assert(texts(lines@) =~= consent_request());
    lines
}

impl ConsentFlow {
    /// Opens the flow for a path that was resolved, or not: with a path the store is
    /// to be read, without one the flow has ended with the error of the resolution.
    pub fn begin(path: TelemetryResult<String>, interactive: bool) -> (opened: (
        ConsentFlow,
        FlowAction,
    ))
        ensures
            opened.0.wf(),
            opened.0.interactive == interactive,
            match path {
                Ok(place) => {
                    &&& opened.0.path == place
                    &&& opened.0.stage is Loading
                    &&& opened.1 == FlowAction::Load(place)
                },
                Err(error) => {
                    &&& opened.0.stage is Finished
                    &&& opened.1 == FlowAction::Finish(Err(error))
                },
            },
    {
        match path {
            Ok(place) => {
                let flow = ConsentFlow {
                    path: place.clone(),
                    interactive,
                    stage: FlowStage::Loading,
                };
                (flow, FlowAction::Load(place))
            },
            Err(error) => {
                let flow = ConsentFlow {
                    path: String::new(),
                    interactive,
                    stage: FlowStage::Finished,
                };
                (flow, FlowAction::Finish(Err(error)))
            },
        }
    }

    /// Opens the flow for the record of `app_name`: resolves the path, notes whether
    /// an operator can be asked, and wants the store read.
    pub fn start(
        app_name: &str,
        custom_path: Option<String>,
        environment: &Environment,
    ) -> (opened: (ConsentFlow, FlowAction))
        ensures
            opened.0.wf(),
            opened.0.interactive == environment.interactive(),
            custom_path matches Some(place) ==> {
                &&& opened.0.path == place
                &&& opened.0.stage is Loading
                &&& opened.1 == FlowAction::Load(place)
            },
            custom_path is None ==> {
                ||| {
                    &&& opened.0.stage is Loading
                    &&& opened.1 == FlowAction::Load(opened.0.path)
                    &&& has_suffix(opened.0.path@, CONFIG_FILE_NAME@)
                }
                ||| {
                    &&& opened.0.stage is Finished
                    &&& opened.1 matches FlowAction::Finish(Err(error))
                    &&& (error@ == no_project_directories() || error@ == directory_not_text())
                }
            },
    {
        let path = TelemetryConfig::get_config_path(app_name, custom_path);
        let interactive = is_interactive(environment);
        Self::begin(path, interactive)
    }

    fn fail(&mut self, error: TelemetryError) -> (action: FlowAction)
        ensures
            final(self).path == old(self).path,
            final(self).interactive == old(self).interactive,
            final(self).stage is Finished,
            action == FlowAction::Finish(Err(error)),
    {
        self.stage = FlowStage::Finished;
        FlowAction::Finish(Err(error))
    }

    fn finish(&mut self, config: TelemetryConfig) -> (action: FlowAction)
        ensures
            final(self).path == old(self).path,
            final(self).interactive == old(self).interactive,
            finishes_with(*final(self), action, config),
    {
        self.stage = FlowStage::Finished;
        FlowAction::Finish(Ok(config))
    }

    fn create(&mut self, enabled: bool) -> (action: FlowAction)
        ensures
            final(self).path == old(self).path,
            final(self).interactive == old(self).interactive,
            creates(*old(self), enabled, *final(self), action),
    {
        let config = TelemetryConfig::new(enabled, Some(self.path.clone()));
        self.stage = FlowStage::Saving(config.clone());
        FlowAction::Save(SaveRequest { path: self.path.clone(), config })
    }

    /// Takes one event and says what is to be done next.
    pub fn advance(&mut self, event: FlowEvent) -> (action: FlowAction)
        ensures
            transition(*old(self), event, *final(self), action),
    {
        let mut stage = FlowStage::Finished;
        std::mem::swap(&mut self.stage, &mut stage);
        match (stage, event) {
            (FlowStage::Loading, FlowEvent::Stored(StoredConfig::Found(config))) => self.finish(
                config,
            ),
            (FlowStage::Loading, FlowEvent::Stored(StoredConfig::Unreadable(reason))) => self.fail(
                TelemetryError::ConfigError(join("Failed to open config file: ", reason.as_str())),
            ),
            (FlowStage::Loading, FlowEvent::Stored(StoredConfig::Malformed(reason))) => self.fail(
                TelemetryError::ConfigError(join("Failed to parse config: ", reason.as_str())),
            ),
            (FlowStage::Loading, FlowEvent::Stored(StoredConfig::Missing)) => {
                if self.interactive {
                    self.stage = FlowStage::Asking;
                    FlowAction::Ask(consent_request_lines())
                } else {
                    self.create(false)
                }
            },
            (FlowStage::Asking, FlowEvent::Answer(answer)) => {
                let enabled = match &answer {
                    Some(line) => is_affirmative(Some(line.as_str())),
                    None => is_affirmative(None),
                };
                self.create(enabled)
            },
            (FlowStage::Saving(config), FlowEvent::Saved(outcome)) => {
                match outcome.creation_result() {
                    Ok(_) => self.finish(config),
                    Err(error) => self.fail(error),
                }
            },
            _ => self.fail(
                TelemetryError::InitializationError(
                    String::from_str("Unexpected event for the consent flow"),
                ),
            ),
        }
    }
}

impl ConsentFlow {
    /// The record that a flow waits to have written is a new one, kept at the
    /// flow's path. Every flow that was opened and advanced is so.
    pub open spec fn wf(self) -> bool {
        self.stage matches FlowStage::Saving(config) ==> {
            &&& config.config_path == Some(self.path)
            &&& is_random_identifier(config.instance_id@)
            &&& config.wf()
        }
    }
}

impl FlowStage {
    /// How many events the flow can still take before it has ended.
    pub open spec fn steps_left(self) -> nat {
        match self {
            FlowStage::Loading => 3,
            FlowStage::Asking => 2,
            FlowStage::Saving(_) => 1,
            FlowStage::Finished => 0,
        }
    }
}

/// Every flow ends: each event takes it nearer to its end, and it has ended
/// exactly when it says so. A flow that has ended stays so, whatever it is told.
pub proof fn lemma_flow_ends(
    pre: ConsentFlow,
    event: FlowEvent,
    post: ConsentFlow,
    action: FlowAction,
)
    requires
        transition(pre, event, post, action),
    ensures
        post.stage.steps_left() < pre.stage.steps_left() || post.stage is Finished,
        action is Finish <==> post.stage is Finished,
        pre.stage is Finished ==> fails_with(post, action, out_of_turn()),
{
}

/// Whatever a flow is told, it is well formed afterwards; and the record that a
/// well-formed flow ends with, once it was written, is a new one kept at the
/// flow's path.
pub proof fn lemma_flow_stays_well_formed(
    pre: ConsentFlow,
    event: FlowEvent,
    post: ConsentFlow,
    action: FlowAction,
)
    requires
        transition(pre, event, post, action),
    ensures
        post.wf(),
        pre.wf() && pre.stage is Saving ==> (action matches FlowAction::Finish(Ok(config)) ==> {
            &&& config.config_path == Some(pre.path)
            &&& is_random_identifier(config.instance_id@)
            &&& config.wf()
        }),
        action matches FlowAction::Save(save) ==> save.config.wf(),
{
}

/// A record is made only where the store holds none: for a flow that waits for
/// the store and is told that the file is missing and no operator can be asked,
/// or for a flow that asked the operator and is given the answer. A record that
/// is found, or that is there and cannot be used, is never replaced.
pub proof fn lemma_record_made_only_when_missing(
    pre: ConsentFlow,
    event: FlowEvent,
    post: ConsentFlow,
    action: FlowAction,
)
    requires
        transition(pre, event, post, action),
        action is Save,
    ensures
        (pre.stage is Loading && !pre.interactive && event == FlowEvent::Stored(
            StoredConfig::Missing,
        )) || (pre.stage is Asking && event is Answer),
        action->Save_0.path == pre.path,
        action->Save_0.config.config_path == Some(pre.path),
{
}

/// The operator is asked only where the store holds no record, and then once:
/// the flow that asks goes on to wait for the answer.
pub proof fn lemma_question_only_when_missing(
    pre: ConsentFlow,
    event: FlowEvent,
    post: ConsentFlow,
    action: FlowAction,
)
    requires
        transition(pre, event, post, action),
        action is Ask,
    ensures
        pre.stage is Loading,
        pre.interactive,
        event == FlowEvent::Stored(StoredConfig::Missing),
        post.stage is Asking,
{
}

/// A flow that cannot ask stays so, and never wants the operator asked.
pub proof fn lemma_without_operator_no_question(
    pre: ConsentFlow,
    event: FlowEvent,
    post: ConsentFlow,
    action: FlowAction,
)
    requires
        !pre.interactive,
        transition(pre, event, post, action),
    ensures
        !post.interactive,
        !(action is Ask),
{
}

/// Where no operator can be asked and the store holds no record, the flow makes
/// a record that refuses, wants it written, and once it is written ends with it.
pub proof fn lemma_without_operator_refuses(
    loading: ConsentFlow,
    saving: ConsentFlow,
    first: FlowAction,
    done: ConsentFlow,
    last: FlowAction,
)
    requires
        loading.stage is Loading,
        !loading.interactive,
        transition(loading, FlowEvent::Stored(StoredConfig::Missing), saving, first),
        transition(saving, FlowEvent::Saved(SaveOutcome::Written), done, last),
    ensures
        first matches FlowAction::Save(save) && !save.config.enabled && save.path == loading.path
            && last == FlowAction::Finish(Ok(save.config)),
{
}

/// A record is made once. The flow that makes a record ends with the record that
/// it had written, and a later flow that finds that record in the store ends with
/// the same one: the same identifier, the same time, the same decision.
pub proof fn lemma_record_is_reused(
    making: ConsentFlow,
    event: FlowEvent,
    saving: ConsentFlow,
    save: SaveRequest,
    made: ConsentFlow,
    first: FlowAction,
    later: ConsentFlow,
    found: ConsentFlow,
    second: FlowAction,
)
    requires
        transition(making, event, saving, FlowAction::Save(save)),
        transition(saving, FlowEvent::Saved(SaveOutcome::Written), made, first),
        later.stage is Loading,
        transition(later, FlowEvent::Stored(StoredConfig::Found(save.config)), found, second),
    ensures
        first == FlowAction::Finish(Ok(save.config)),
        second == first,
{
}

/// A changed decision is the one that is found later. Once a record that has a
/// place was given a new decision and written as requested, a flow that finds
/// what was written ends with a record of that decision, and of the identifier
/// and time that the record had before.
pub proof fn lemma_update_is_loaded(
    config: TelemetryConfig,
    enabled: bool,
    later: ConsentFlow,
    found: ConsentFlow,
    action: FlowAction,
)
    requires
        config.config_path is Some,
        later.stage is Loading,
        transition(
            later,
            FlowEvent::Stored(
                StoredConfig::Found(config.with_consent(enabled).save_request()->0.config),
            ),
            found,
            action,
        ),
    ensures
        action matches FlowAction::Finish(Ok(loaded)) && loaded.enabled == enabled
            && loaded.instance_id == config.instance_id && loaded.created_at == config.created_at
            && loaded.config_path == config.config_path,
{
}

/// A stored record that cannot be read or understood ends the flow with an
/// error: no record is made in its place and nothing is written.
pub proof fn lemma_bad_record_is_kept(
    pre: ConsentFlow,
    stored: StoredConfig,
    post: ConsentFlow,
    action: FlowAction,
)
    requires
        pre.stage is Loading,
        stored is Unreadable || stored is Malformed,
        transition(pre, FlowEvent::Stored(stored), post, action),
    ensures
        action matches FlowAction::Finish(Err(error)) && error@ is ConfigError,
        post.stage is Finished,
{
}

} // verus!
