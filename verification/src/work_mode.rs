//! Work mode: while it is on, the manager listens to the window system,
//! shows its bar and hides the task bar.

use vstd::prelude::*;

verus! {

/// One step of turning work mode on or off. The steps are carried out in
/// order; the first one that fails ends the sequence.
#[derive(Debug, Clone, Copy, PartialEq, Eq, Structural)]
pub enum WorkModeStep {
    /// Listen to the events of the window system.
    RegisterWinEvents,
    /// Stop listening to the events of the window system.
    UnregisterWinEvents,
    /// Create the bar.
    CreateAppBar,
    /// Close the bar.
    CloseAppBar,
    /// Hide the task bar of the system.
    HideTaskBar,
    /// Show the task bar of the system.
    ShowTaskBar,
    /// Give the windows back and release what is held.
    Cleanup,
}

/// The steps that turn work mode off.
pub open spec fn steps_off(display_app_bar: bool, remove_task_bar: bool) -> Seq<WorkModeStep> {
    seq![WorkModeStep::UnregisterWinEvents] + (if display_app_bar {
        seq![WorkModeStep::CloseAppBar]
    } else {
        Seq::empty()
    }) + (if remove_task_bar {
        seq![WorkModeStep::ShowTaskBar]
    } else {
        Seq::empty()
    }) + seq![WorkModeStep::Cleanup]
}

/// The steps that turn work mode on.
pub open spec fn steps_on(display_app_bar: bool, remove_task_bar: bool) -> Seq<WorkModeStep> {
    seq![WorkModeStep::RegisterWinEvents] + (if display_app_bar {
        seq![WorkModeStep::CreateAppBar]
    } else {
        Seq::empty()
    }) + (if remove_task_bar {
        seq![WorkModeStep::HideTaskBar]
    } else {
        Seq::empty()
    })
}

/// What turning work mode off takes.
pub fn turn_work_mode_off(display_app_bar: bool, remove_task_bar: bool) -> (steps: Vec<
    WorkModeStep,
>)
    ensures
        steps@ == steps_off(display_app_bar, remove_task_bar),
{
    let mut steps: Vec<WorkModeStep> = Vec::new();
    steps.push(WorkModeStep::UnregisterWinEvents);
    if display_app_bar {
        steps.push(WorkModeStep::CloseAppBar);
    }
    if remove_task_bar {
        steps.push(WorkModeStep::ShowTaskBar);
    }
    steps.push(WorkModeStep::Cleanup);
    assert(steps@ =~= steps_off(display_app_bar, remove_task_bar));
    steps
}

/// What turning work mode on takes.
pub fn turn_work_mode_on(display_app_bar: bool, remove_task_bar: bool) -> (steps: Vec<WorkModeStep>)
    ensures
        steps@ == steps_on(display_app_bar, remove_task_bar),
{
    let mut steps: Vec<WorkModeStep> = Vec::new();
    steps.push(WorkModeStep::RegisterWinEvents);
    if display_app_bar {
        steps.push(WorkModeStep::CreateAppBar);
    }
    if remove_task_bar {
        steps.push(WorkModeStep::HideTaskBar);
    }
    assert(steps@ =~= steps_on(display_app_bar, remove_task_bar));
    steps
}

/// What the key that toggles work mode asks for.
#[derive(Debug)]
pub struct Toggle {
    /// The steps to carry out.
    pub steps: Vec<WorkModeStep>,
    /// The mode that holds once every step has succeeded. If one fails, the
    /// mode stays as it was.
    pub work_mode: bool,
}

/// Toggles work mode: says what it takes to leave the mode that holds, and
/// which mode holds afterwards.
pub fn handle(work_mode: bool, display_app_bar: bool, remove_task_bar: bool) -> (toggle: Toggle)
    ensures
        toggle.work_mode == !work_mode,
        toggle.steps@ == if work_mode {
            steps_off(display_app_bar, remove_task_bar)
        } else {
            steps_on(display_app_bar, remove_task_bar)
        },
{
    let steps = if work_mode {
        turn_work_mode_off(display_app_bar, remove_task_bar)
    } else {
        turn_work_mode_on(display_app_bar, remove_task_bar)
    };
    Toggle { steps, work_mode: !work_mode }
}

} // verus!
