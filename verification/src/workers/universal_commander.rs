//! The commander: a task names a directory and a list of actions, and the
//! commander turns each action into one step for the caller to run.

use vstd::prelude::*;
use vstd::string::StringExecFns;
use crate::event::event::{copy_opt_text, opt_text};
use crate::text::{to_uppercase, uppercase_of};

verus! {

/// A task for the commander.
#[derive(Debug, Clone, PartialEq, Eq)]
pub struct UniversalTask {
    pub target_path: String,
    pub actions: Vec<String>,
    pub ai_instruction: Option<String>,
}

/// Mathematical view of [`UniversalTask`].
pub struct TaskView {
    pub target_path: Seq<char>,
    pub actions: Seq<Seq<char>>,
    pub ai_instruction: Option<Seq<char>>,
}

impl View for UniversalTask {
    type V = TaskView;

    open spec fn view(&self) -> TaskView {
        TaskView {
            target_path: self.target_path@,
            actions: self.actions.deep_view(),
            ai_instruction: opt_text(self.ai_instruction),
        }
    }
}

/// One step of a task.
#[derive(Debug, Clone, PartialEq, Eq)]
pub enum CommanderStep {
    /// Run the build and hand its errors to the repair.
    Build,
    /// Let the model write a module following this instruction.
    WriteCode(String),
    /// The task asks for code but gives no instruction: nothing to do.
    Nothing,
    /// Look for faults and patch them.
    AutoFix,
    /// Format the code.
    Format,
    /// The action is not known; it is reported and skipped.
    Unknown(String),
}

/// Mathematical view of [`CommanderStep`].
pub enum StepView {
    Build,
    WriteCode(Seq<char>),
    Nothing,
    AutoFix,
    Format,
    Unknown(Seq<char>),
}

impl View for CommanderStep {
    type V = StepView;

    open spec fn view(&self) -> StepView {
        match *self {
            CommanderStep::Build => StepView::Build,
            CommanderStep::WriteCode(instruction) => StepView::WriteCode(instruction@),
            CommanderStep::Nothing => StepView::Nothing,
            CommanderStep::AutoFix => StepView::AutoFix,
            CommanderStep::Format => StepView::Format,
            CommanderStep::Unknown(action) => StepView::Unknown(action@),
        }
    }
}

impl DeepView for CommanderStep {
    type V = StepView;

    open spec fn deep_view(&self) -> StepView {
        self@
    }
}

/// The step that an action stands for, given its upper-case form.
pub open spec fn step_with(
    upper: Seq<char>,
    action: Seq<char>,
    instruction: Option<Seq<char>>,
) -> StepView {
    if upper == "BUILD"@ {
        StepView::Build
    } else if upper == "WRITE_CODE"@ {
        match instruction {
            Some(text) => StepView::WriteCode(text),
            None => StepView::Nothing,
        }
    } else if upper == "AUTO_FIX"@ {
        StepView::AutoFix
    } else if upper == "FMT"@ {
        StepView::Format
    } else {
        StepView::Unknown(action)
    }
}

/// The step that an action stands for, letter case ignored.
pub open spec fn step_of(action: Seq<char>, instruction: Option<Seq<char>>) -> StepView {
    step_with(uppercase_of(action), action, instruction)
}

/// The steps of a task: one per action, in order.
pub open spec fn steps_of(task: TaskView) -> Seq<StepView> {
    Seq::new(task.actions.len(), |i: int| step_of(task.actions[i], task.ai_instruction))
}

/// Runs tasks step by step.
#[derive(Debug, Clone, Copy, PartialEq, Eq, Structural)]
pub struct UniversalCommander;

impl UniversalCommander {
    /// The step that one action of a task stands for.
    pub fn step(action: &String, instruction: &Option<String>) -> (step: CommanderStep)
        ensures
            step@ == step_of(action@, opt_text(*instruction)),
    {
        let upper = to_uppercase(action.as_str());
        UniversalCommander::step_for(&upper, action, instruction)
    }

    /// The step that one action stands for, given its upper-case form.
    pub fn step_for(upper: &String, action: &String, instruction: &Option<String>) -> (step:
        CommanderStep)
        ensures
            step@ == step_with(upper@, action@, opt_text(*instruction)),
    {
        if *upper == String::from_str("BUILD") {
            CommanderStep::Build
        } else if *upper == String::from_str("WRITE_CODE") {
            match copy_opt_text(instruction) {
                Some(text) => CommanderStep::WriteCode(text),
                None => CommanderStep::Nothing,
            }
        } else if *upper == String::from_str("AUTO_FIX") {
            CommanderStep::AutoFix
        } else if *upper == String::from_str("FMT") {
            CommanderStep::Format
        } else {
            CommanderStep::Unknown(action.clone())
        }
    }

    /// Turns a task into the steps to run, one per action, in order.
    pub fn dispatch(task: &UniversalTask) -> (steps: Vec<CommanderStep>)
        ensures
            steps.deep_view() == steps_of(task@),
    {
        let mut steps: Vec<CommanderStep> = Vec::new();
        let mut i: usize = 0;
        while i < task.actions.len()
            invariant
                i <= task.actions.len(),
                steps.len() == i,
                forall|j: int|
                    0 <= j < i ==> steps@[j]@ == step_of(
                        task.actions@[j]@,
                        opt_text(task.ai_instruction),
                    ),
            decreases task.actions.len() - i,
        {
            steps.push(UniversalCommander::step(&task.actions[i], &task.ai_instruction));
            i += 1;
        }
        assert(steps.deep_view() =~= steps_of(task@));
        steps
    }

    /// What follows a build: a failed build hands its errors to the repair.
    pub fn after_build(success: bool) -> (repair: bool)
        ensures
            repair == !success,
    {
        !success
    }
}

} // verus!
