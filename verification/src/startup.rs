//! The startup state machine: from the current stage and a reported event to
//! the next stage and the action the caller performs next.

use vstd::prelude::*;
use crate::capability::Module;
use crate::capability::required_module;
use crate::diagnostic::failure_message;
use crate::diagnostic::failure_text;

verus! {

/// The lifecycle of the application as seen from the entry operation.
#[derive(Clone, Copy, Debug, PartialEq, Eq, Structural)]
pub enum Phase {
    /// Nothing has been constructed yet.
    Uninitialized,
    /// The builder is being assembled.
    Building,
    /// The builder holds its module and the run context is in hand.
    Configured,
    /// The run loop owns the application. Terminal.
    Running,
    /// Startup failed; the process exits. Terminal.
    FailedStartup,
}

/// The exact point the startup sequence has reached: each stage names what the
/// machine is waiting to hear about.
#[derive(Clone, Copy, Debug, PartialEq, Eq, Structural)]
pub enum Stage {
    /// The entry operation has not been invoked.
    Idle,
    /// The builder was asked for.
    BuilderPending,
    /// The registration of the capability module was asked for.
    ModulePending,
    /// The run context was asked for.
    ContextPending,
    /// The builder and the context were handed to the run loop.
    RunLoopPending,
    /// The run loop was entered.
    Running,
    /// Startup failed.
    Failed,
}

/// What the caller reports to the machine.
#[derive(Debug, PartialEq, Eq)]
pub enum Event {
    /// The entry operation was invoked.
    Start,
    /// A fresh builder with default configuration exists.
    BuilderCreated,
    /// The module was registered on the builder.
    ModuleRegistered(Module),
    /// The run context was generated from the packaged configuration.
    ContextGenerated,
    /// The run loop accepted the application.
    RunLoopEntered,
    /// Startup failed, with the underlying failure's description.
    StartupFailed(String),
}

/// What the machine asks the caller to do next.
#[derive(Debug, PartialEq, Eq)]
pub enum Action {
    /// Construct a default application builder.
    CreateBuilder,
    /// Register the module on the builder.
    RegisterModule(Module),
    /// Generate the run context.
    GenerateContext,
    /// Hand the builder and the context to the run loop.
    EnterRunLoop,
    /// Terminate the process with the diagnostic.
    Terminate(String),
    /// Nothing is left to do for this event.
    Nothing,
}

/// An `Action` with its diagnostic as a sequence of characters.
pub enum ActionView {
    CreateBuilder,
    RegisterModule(Module),
    GenerateContext,
    EnterRunLoop,
    Terminate(Seq<char>),
    Nothing,
}

impl View for Action {
    type V = ActionView;

    open spec fn view(&self) -> ActionView {
        match self {
            Action::CreateBuilder => ActionView::CreateBuilder,
            Action::RegisterModule(module) => ActionView::RegisterModule(*module),
            Action::GenerateContext => ActionView::GenerateContext,
            Action::EnterRunLoop => ActionView::EnterRunLoop,
            Action::Terminate(message) => ActionView::Terminate(message@),
            Action::Nothing => ActionView::Nothing,
        }
    }
}

/// The lifecycle phase that a stage belongs to.
pub open spec fn phase_of(stage: Stage) -> Phase {
    match stage {
        Stage::Idle => Phase::Uninitialized,
        Stage::BuilderPending | Stage::ModulePending | Stage::ContextPending => Phase::Building,
        Stage::RunLoopPending => Phase::Configured,
        Stage::Running => Phase::Running,
        Stage::Failed => Phase::FailedStartup,
    }
}

/// Startup has begun and has not yet ended either way.
pub open spec fn in_progress(stage: Stage) -> bool {
    stage == Stage::BuilderPending || stage == Stage::ModulePending
        || stage == Stage::ContextPending || stage == Stage::RunLoopPending
}

/// The stage that follows `stage` when `event` is reported. An event that the
/// stage does not wait for changes nothing; a failure ends any startup that is
/// in progress.
pub open spec fn next_stage(stage: Stage, event: Event) -> Stage {
    match (stage, event) {
        (Stage::Idle, Event::Start) => Stage::BuilderPending,
        (Stage::BuilderPending, Event::BuilderCreated) => Stage::ModulePending,
        (Stage::ModulePending, Event::ModuleRegistered(module)) => if module
            == required_module() {
            Stage::ContextPending
        } else {
            stage
        },
        (Stage::ContextPending, Event::ContextGenerated) => Stage::RunLoopPending,
        (Stage::RunLoopPending, Event::RunLoopEntered) => Stage::Running,
        (_, Event::StartupFailed(_)) => if in_progress(stage) {
            Stage::Failed
        } else {
            stage
        },
        _ => stage,
    }
}

/// The action that answers `event` at `stage`.
pub open spec fn next_action(stage: Stage, event: Event) -> ActionView {
    match (stage, event) {
        (Stage::Idle, Event::Start) => ActionView::CreateBuilder,
        (Stage::BuilderPending, Event::BuilderCreated) => ActionView::RegisterModule(
            required_module(),
        ),
        (Stage::ModulePending, Event::ModuleRegistered(module)) => if module
            == required_module() {
            ActionView::GenerateContext
        } else {
            ActionView::Nothing
        },
        (Stage::ContextPending, Event::ContextGenerated) => ActionView::EnterRunLoop,
        (_, Event::StartupFailed(detail)) => if in_progress(stage) {
            ActionView::Terminate(failure_text(detail@))
        } else {
            ActionView::Nothing
        },
        _ => ActionView::Nothing,
    }
}

/// The state of one startup. There is one per process.
#[derive(Debug)]
pub struct Startup {
    stage: Stage,
}

impl View for Startup {
    type V = Stage;

    closed spec fn view(&self) -> Stage {
        self.stage
    }
}

impl Startup {
    /// A startup that has not begun.
    pub fn new() -> (startup: Startup)
        ensures
            startup@ == Stage::Idle,
    {
        Startup { stage: Stage::Idle }
    }

    /// The lifecycle phase the startup is in.
    pub fn phase(&self) -> (phase: Phase)
        ensures
            phase == phase_of(self@),
    {
        match self.stage {
            Stage::Idle => Phase::Uninitialized,
            Stage::BuilderPending => Phase::Building,
            Stage::ModulePending => Phase::Building,
            Stage::ContextPending => Phase::Building,
            Stage::RunLoopPending => Phase::Configured,
            Stage::Running => Phase::Running,
            Stage::Failed => Phase::FailedStartup,
        }
    }

    /// Takes in what the caller reports and says what to do next.
    pub fn step(&mut self, event: Event) -> (action: Action)
        ensures
            final(self)@ == next_stage(old(self)@, event),
            action@ == next_action(old(self)@, event),
    {
        let stage = self.stage;
        match event {
            Event::Start => match stage {
                Stage::Idle => {
                    self.stage = Stage::BuilderPending;
                    Action::CreateBuilder
                },
                _ => Action::Nothing,
            },
            Event::BuilderCreated => match stage {
                Stage::BuilderPending => {
                    self.stage = Stage::ModulePending;
                    Action::RegisterModule(Module::Opener)
                },
                _ => Action::Nothing,
            },
            Event::ModuleRegistered(module) => match stage {
                Stage::ModulePending => match module {
                    Module::Opener => {
                        self.stage = Stage::ContextPending;
                        Action::GenerateContext
                    },
                },
                _ => Action::Nothing,
            },
            Event::ContextGenerated => match stage {
                Stage::ContextPending => {
                    self.stage = Stage::RunLoopPending;
                    Action::EnterRunLoop
                },
                _ => Action::Nothing,
            },
            Event::RunLoopEntered => match stage {
                Stage::RunLoopPending => {
                    self.stage = Stage::Running;
                    Action::Nothing
                },
                _ => Action::Nothing,
            },
            Event::StartupFailed(detail) => match stage {
                Stage::BuilderPending | Stage::ModulePending | Stage::ContextPending
                | Stage::RunLoopPending => {
                    self.stage = Stage::Failed;
                    Action::Terminate(failure_message(detail.as_str()))
                },
                _ => Action::Nothing,
            },
        }
    }
}

} // verus!
