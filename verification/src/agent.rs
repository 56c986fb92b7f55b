//! The backend-developer agent: a bounded-retry state machine that drives
//! code generation, builds, and endpoint verification.
//!
//! The machine itself is verified; the outside work (the oracle round trip,
//! the build tool, the supervised server, the probes) is performed by an
//! unverified driver. The driver calls [`AgentBackendDeveloper::step`] with
//! the outcome of the last action as an [`AgentEvent`] and performs the
//! [`AgentAction`] the machine hands back, until the action is
//! [`AgentAction::Halt`] or the machine reports an [`AgentError`].

use crate::factsheet::FactSheet;
use crate::llm::{fence_stripped, strip_code_fences};
use crate::routes::{filter_probable_routes, static_get_routes, RouteObject};
use vstd::prelude::*;
use vstd::string::*;

verus! {

/// The phase an agent is in. Transitions are strictly forward except the
/// bug-retry loop from `UnitTesting` back to `Working`.
#[derive(Clone, Copy, PartialEq, Eq, Structural, Debug)]
pub enum AgentState {
    Discovery,
    Working,
    UnitTesting,
    Finished,
}

/// Per-agent identity and memory. `objective` and `position` are set at
/// construction and never mutated.
pub struct BasicAgent {
    pub objective: String,
    pub position: String,
    pub state: AgentState,
    pub memory: Vec<crate::llm::Message>,
}

/// Which prompt the driver must assemble for the next oracle request.
#[derive(Clone, Copy, PartialEq, Eq, Structural, Debug)]
pub enum PromptKind {
    /// First draft: the fixed code template plus the project description.
    InitialGeneration,
    /// An improvement pass over the current source and the record context.
    Improvement,
    /// A fix pass over the current source and the captured build diagnostics.
    BugFix,
    /// Summarize the built source into a route-descriptor list.
    SchemaExtraction,
}

/// The outcome of the last driver action, handed back to the machine.
pub enum AgentEvent {
    /// The run begins.
    Start,
    /// The oracle returned generated source text (raw, fences included).
    Generated { source: String },
    /// The operator answered the run-this-code safety gate.
    SafetyVerdict { approved: bool },
    /// The build tool exited; on failure `diagnostics` holds its error text.
    BuildFinished { success: bool, diagnostics: String },
    /// The oracle returned schema text (raw, fences included).
    SchemaText { raw: String },
    /// The cleaned schema text decoded into a descriptor list.
    SchemaDecoded { schema_text: String, routes: Vec<RouteObject> },
    /// The cleaned schema text failed to decode.
    SchemaUndecodable,
    /// The probing pass over the filtered endpoints is complete.
    ProbingComplete,
}

/// What the driver must do next.
#[derive(Debug)]
pub enum AgentAction {
    /// Ask the oracle for a generation pass and hand the reply back as
    /// [`AgentEvent::Generated`] or [`AgentEvent::SchemaText`].
    RequestGeneration { kind: PromptKind },
    /// Ask the operator whether running AI-authored code is authorized.
    ConfirmSafety,
    /// Run the build tool synchronously.
    RunBuild,
    /// Ask the oracle to extract the route schema from the built source.
    ExtractSchema,
    /// Decode the cleaned schema text into a descriptor list.
    DecodeSchema { schema_text: String },
    /// Start the server, wait the warm-up delay, probe each route in order,
    /// terminate the server, and persist the schema text.
    ProbeEndpoints { probe_routes: Vec<RouteObject>, schema_text: String },
    /// The run is over.
    Halt,
}

/// Why a run aborted. Every variant is fatal: none is retried.
#[derive(Clone, Copy, PartialEq, Eq, Structural, Debug)]
pub enum AgentError {
    /// The operator declined the safety gate.
    SafetyDeclined,
    /// A third consecutive build failure.
    BuildLimitExceeded,
    /// The schema extractor's output was malformed.
    SchemaDecodeFailed,
}

/// The events a state is prepared to answer; any other pair is treated
/// defensively as the end of the run.
pub open spec fn step_expects(s: AgentState, e: AgentEvent) -> bool {
    match s {
        AgentState::Discovery => e is Start || e is Generated,
        AgentState::Working => e is Generated,
        AgentState::UnitTesting => e is SafetyVerdict || e is BuildFinished || e is SchemaText
            || e is SchemaDecoded || e is SchemaUndecodable || e is ProbingComplete,
        AgentState::Finished => false,
    }
}

/// The context of the first-draft request: the fixed code template plus the
/// project description, in plain text.
pub open spec fn initial_context_of(code_template: Seq<char>, description: Seq<char>) -> Seq<
    char,
> {
    "CODE TEMPLATE: "@ + code_template + " \n PROJECT_DESCRIPTION: "@ + description
        + " \n OUTPUT IN PLAIN TEXT ONLY"@
}

/// The context of an improvement pass: the current source plus the project
/// description.
pub open spec fn improvement_context_of(backend_code: Seq<char>, description: Seq<char>) -> Seq<
    char,
> {
    "CODE TEMPLATE: "@ + backend_code + " \n PROJECT_DESCRIPTION: "@ + description + " \n"@
}

/// The context of a fix pass: the broken source plus the captured build
/// diagnostics.
pub open spec fn fix_context_of(backend_code: Seq<char>, bug_errors: Seq<char>) -> Seq<char> {
    "BROKEN_CODE: "@ + backend_code + " \n ERROR_BUGS: "@ + bug_errors + " \n"@
}

/// The context of a schema-extraction request: the built source.
pub open spec fn schema_context_of(backend_code: Seq<char>) -> Seq<char> {
    "CODE_INPUT: "@ + backend_code
}

/// The agent that develops the backend code, with its bounded bug-retry
/// state.
pub struct AgentBackendDeveloper {
    pub attributes: BasicAgent,
    pub bug_errors: Option<String>,
    pub bug_count: u8,
}

impl AgentBackendDeveloper {
    /// The retry counter never leaves the range the bounded-retry rule
    /// allows: a step that would push it past 2 aborts instead.
    pub open spec fn wf(self) -> bool {
        self.bug_count <= 2
    }

    /// A fresh backend-developer agent: in `Discovery`, with no bugs
    /// recorded.
    pub fn new() -> (r: Self)
        ensures
            r.attributes.objective@ == "Develops the backend code for webserver and json database"@,
            r.attributes.position@ == "Backend Developer"@,
            r.attributes.state == AgentState::Discovery,
            r.attributes.memory@.len() == 0,
            r.bug_errors is None,
            r.bug_count == 0,
            r.wf(),
    {
        let attributes = BasicAgent {
            objective: String::from_str("Develops the backend code for webserver and json database"),
            position: String::from_str("Backend Developer"),
            state: AgentState::Discovery,
            memory: Vec::new(),
        };
        AgentBackendDeveloper { attributes, bug_errors: None, bug_count: 0 }
    }

    /// The agent's identity and current state.
    pub fn get_attributes_from_agent(&self) -> (r: &BasicAgent)
        ensures
            *r == self.attributes,
    {
        &self.attributes
    }

    /// Assemble the first-draft prompt context from the fixed code template
    /// and the project description.
    pub fn initial_code_context(&self, code_template: &str, record: &FactSheet) -> (c: String)
        ensures
            c@ == initial_context_of(code_template@, record.project_description@),
    {
        let mut c = String::from_str("CODE TEMPLATE: ");
        c.append(code_template);
        c.append(" \n PROJECT_DESCRIPTION: ");
        c.append(record.project_description.as_str());
        c.append(" \n OUTPUT IN PLAIN TEXT ONLY");
        c
    }

    /// Assemble the improvement-pass prompt context from the current source
    /// and the record.
    pub fn improved_code_context(&self, record: &FactSheet) -> (c: String)
        requires
            record.backend_code is Some,
        ensures
            c@ == improvement_context_of(
                record.backend_code->0@,
                record.project_description@,
            ),
    {
        let mut c = String::from_str("CODE TEMPLATE: ");
        c.append(record.backend_code.as_ref().unwrap().as_str());
        c.append(" \n PROJECT_DESCRIPTION: ");
        c.append(record.project_description.as_str());
        c.append(" \n");
        c
    }

    /// Assemble the fix-pass prompt context from the broken source and the
    /// recorded build diagnostics.
    pub fn fix_code_context(&self, record: &FactSheet) -> (c: String)
        requires
            record.backend_code is Some,
            self.bug_errors is Some,
        ensures
            c@ == fix_context_of(record.backend_code->0@, self.bug_errors->0@),
    {
        let mut c = String::from_str("BROKEN_CODE: ");
        c.append(record.backend_code.as_ref().unwrap().as_str());
        c.append(" \n ERROR_BUGS: ");
        c.append(self.bug_errors.as_ref().unwrap().as_str());
        c.append(" \n");
        c
    }

    /// Assemble the schema-extraction prompt context from the built source.
    pub fn endpoints_context(&self, record: &FactSheet) -> (c: String)
        requires
            record.backend_code is Some,
        ensures
            c@ == schema_context_of(record.backend_code->0@),
    {
        let mut c = String::from_str("CODE_INPUT: ");
        c.append(record.backend_code.as_ref().unwrap().as_str());
        c
    }

    /// One transition of the agent's state machine.
    ///
    /// The driver performs the returned action and hands its outcome back as
    /// the next event. `Err` is a fatal abort of the whole run. Build
    /// failures are retryable-bounded: each one sends the machine back to
    /// `Working` with the diagnostics recorded, and the third consecutive
    /// failure aborts instead, before any endpoint verification.
    pub fn step(&mut self, record: &mut FactSheet, event: AgentEvent) -> (r: Result<
        AgentAction,
        AgentError,
    >)
        requires
            old(self).wf(),
        ensures
            final(self).wf(),
            // Agent identity and memory, and the project description, are
            // never touched.
            final(self).attributes.objective == old(self).attributes.objective,
            final(self).attributes.position == old(self).attributes.position,
            final(self).attributes.memory == old(self).attributes.memory,
            final(record).project_description == old(record).project_description,
            // The run begins: ask for the first draft.
            (old(self).attributes.state == AgentState::Discovery && event is Start) ==> ({
                &&& *final(self) == *old(self)
                &&& *final(record) == *old(record)
                &&& r == Ok::<AgentAction, AgentError>(
                    AgentAction::RequestGeneration { kind: PromptKind::InitialGeneration },
                )
            }),
            // First draft arrived: persist it cleaned, move to Working, and
            // ask for the next pass (an improvement, or a fix when bugs are
            // recorded).
            old(self).attributes.state == AgentState::Discovery ==> (event matches
                AgentEvent::Generated { source } ==> ({
                &&& final(self).attributes.state == AgentState::Working
                &&& final(self).bug_count == old(self).bug_count
                &&& final(self).bug_errors == old(self).bug_errors
                &&& (final(record).backend_code matches Some(c) && c@ == fence_stripped(source@))
                &&& final(record).api_endpoint_schema == old(record).api_endpoint_schema
                &&& r == Ok::<AgentAction, AgentError>(
                    AgentAction::RequestGeneration {
                        kind: if old(self).bug_count == 0 {
                            PromptKind::Improvement
                        } else {
                            PromptKind::BugFix
                        },
                    },
                )
            })),
            // A Working pass arrived: persist it cleaned and gate on the
            // operator before any of it runs.
            old(self).attributes.state == AgentState::Working ==> (event matches
                AgentEvent::Generated { source } ==> ({
                &&& final(self).attributes.state == AgentState::UnitTesting
                &&& final(self).bug_count == old(self).bug_count
                &&& final(self).bug_errors == old(self).bug_errors
                &&& (final(record).backend_code matches Some(c) && c@ == fence_stripped(source@))
                &&& final(record).api_endpoint_schema == old(record).api_endpoint_schema
                &&& r == Ok::<AgentAction, AgentError>(AgentAction::ConfirmSafety)
            })),
            // The operator answered the safety gate.
            old(self).attributes.state == AgentState::UnitTesting ==> (event matches
                AgentEvent::SafetyVerdict { approved } ==> ({
                &&& *final(self) == *old(self)
                &&& *final(record) == *old(record)
                &&& r == if approved {
                    Ok::<AgentAction, AgentError>(AgentAction::RunBuild)
                } else {
                    Err::<AgentAction, AgentError>(AgentError::SafetyDeclined)
                }
            })),
            // The build finished. On success the bug state resets and
            // endpoint verification begins. On failure with retries left the
            // failure is counted, its diagnostics recorded, and the machine
            // goes back to Working for a fix pass — never to Finished or
            // straight back to UnitTesting. The third consecutive failure
            // aborts fatally, before any endpoint verification.
            old(self).attributes.state == AgentState::UnitTesting ==> (event matches
                AgentEvent::BuildFinished { success, diagnostics } ==> ({
                &&& success ==> ({
                    &&& final(self).attributes.state == AgentState::UnitTesting
                    &&& final(self).bug_count == 0
                    &&& final(self).bug_errors is None
                    &&& *final(record) == *old(record)
                    &&& r == Ok::<AgentAction, AgentError>(AgentAction::ExtractSchema)
                })
                &&& (!success && old(self).bug_count < 2) ==> ({
                    &&& final(self).attributes.state == AgentState::Working
                    &&& final(self).bug_count == old(self).bug_count + 1
                    &&& final(self).bug_errors == Some(diagnostics)
                    &&& *final(record) == *old(record)
                    &&& r == Ok::<AgentAction, AgentError>(
                        AgentAction::RequestGeneration { kind: PromptKind::BugFix },
                    )
                })
                &&& (!success && old(self).bug_count == 2) ==> ({
                    &&& *final(self) == *old(self)
                    &&& *final(record) == *old(record)
                    &&& r == Err::<AgentAction, AgentError>(AgentError::BuildLimitExceeded)
                })
            })),
            // The extractor's reply is cleaned before decoding.
            old(self).attributes.state == AgentState::UnitTesting ==> (event matches
                AgentEvent::SchemaText { raw } ==> ({
                &&& *final(self) == *old(self)
                &&& *final(record) == *old(record)
                &&& (r matches Ok(AgentAction::DecodeSchema { schema_text }) && schema_text@
                    == fence_stripped(raw@))
            })),
            // The schema decoded: keep exactly the static GET descriptors,
            // in order, both in the record and in the probing pass.
            old(self).attributes.state == AgentState::UnitTesting ==> (event matches
                AgentEvent::SchemaDecoded { schema_text, routes } ==> ({
                &&& *final(self) == *old(self)
                &&& (final(record).api_endpoint_schema matches Some(kept) && kept@
                    == static_get_routes(routes@))
                &&& final(record).backend_code == old(record).backend_code
                &&& (r matches Ok(AgentAction::ProbeEndpoints { probe_routes, schema_text: st })
                    && probe_routes@ == static_get_routes(routes@) && st == schema_text)
            })),
            // Malformed extractor output is not retried.
            (old(self).attributes.state == AgentState::UnitTesting && event is SchemaUndecodable)
                ==> ({
                &&& *final(self) == *old(self)
                &&& *final(record) == *old(record)
                &&& r == Err::<AgentAction, AgentError>(AgentError::SchemaDecodeFailed)
            }),
            // The probing pass ended: the run is complete.
            (old(self).attributes.state == AgentState::UnitTesting && event is ProbingComplete)
                ==> ({
                &&& final(self).attributes.state == AgentState::Finished
                &&& final(self).bug_count == old(self).bug_count
                &&& final(self).bug_errors == old(self).bug_errors
                &&& *final(record) == *old(record)
                &&& r == Ok::<AgentAction, AgentError>(AgentAction::Halt)
            }),
            // Any other pair is treated defensively as the end of the run.
            (!step_expects(old(self).attributes.state, event)) ==> ({
                &&& final(self).attributes.state == AgentState::Finished
                &&& final(self).bug_count == old(self).bug_count
                &&& final(self).bug_errors == old(self).bug_errors
                &&& *final(record) == *old(record)
                &&& r == Ok::<AgentAction, AgentError>(AgentAction::Halt)
            }),
    {
        match (self.attributes.state, event) {
            (AgentState::Discovery, AgentEvent::Start) => Ok(
                AgentAction::RequestGeneration { kind: PromptKind::InitialGeneration },
            ),
            (AgentState::Discovery, AgentEvent::Generated { source }) => {
                record.backend_code = Some(strip_code_fences(source.as_str()));
                self.attributes.state = AgentState::Working;
                let kind = if self.bug_count == 0 {
                    PromptKind::Improvement
                } else {
                    PromptKind::BugFix
                };
                Ok(AgentAction::RequestGeneration { kind })
            },
            (AgentState::Working, AgentEvent::Generated { source }) => {
                record.backend_code = Some(strip_code_fences(source.as_str()));
                self.attributes.state = AgentState::UnitTesting;
                Ok(AgentAction::ConfirmSafety)
            },
            (AgentState::UnitTesting, AgentEvent::SafetyVerdict { approved }) => {
                if approved {
                    Ok(AgentAction::RunBuild)
                } else {
                    Err(AgentError::SafetyDeclined)
                }
            },
            (AgentState::UnitTesting, AgentEvent::BuildFinished { success, diagnostics }) => {
                if success {
                    self.bug_count = 0;
                    self.bug_errors = None;
                    Ok(AgentAction::ExtractSchema)
                } else if self.bug_count < 2 {
                    self.bug_count = self.bug_count + 1;
                    self.bug_errors = Some(diagnostics);
                    self.attributes.state = AgentState::Working;
                    Ok(AgentAction::RequestGeneration { kind: PromptKind::BugFix })
                } else {
                    Err(AgentError::BuildLimitExceeded)
                }
            },
            (AgentState::UnitTesting, AgentEvent::SchemaText { raw }) => {
                Ok(AgentAction::DecodeSchema { schema_text: strip_code_fences(raw.as_str()) })
            },
            (AgentState::UnitTesting, AgentEvent::SchemaDecoded { schema_text, routes }) => {
                let kept = filter_probable_routes(&routes);
                let probe_routes = filter_probable_routes(&routes);
                record.api_endpoint_schema = Some(kept);
                Ok(AgentAction::ProbeEndpoints { probe_routes, schema_text })
            },
            (AgentState::UnitTesting, AgentEvent::SchemaUndecodable) => Err(
                AgentError::SchemaDecodeFailed,
            ),
            (AgentState::UnitTesting, AgentEvent::ProbingComplete) => {
                self.attributes.state = AgentState::Finished;
                Ok(AgentAction::Halt)
            },
            _ => {
                self.attributes.state = AgentState::Finished;
                Ok(AgentAction::Halt)
            },
        }
    }
}

} // verus!
