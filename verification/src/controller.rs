//! The window visibility controller.
//!
//! The controller is the one place that decides how the window's visibility
//! changes. It keeps no flag of its own: every toggle starts from what the
//! platform reports at that moment. An operation is a short exchange with the
//! host program. The controller names the next [`Step`], the host performs it
//! on the platform and reports the answer, and the controller names the step
//! after that, until the operation is complete.

use vstd::prelude::*;
use crate::error::ShellError;
use crate::window::{WindowAction, WindowState};

verus! {

/// An operation of the controller.
#[derive(Clone, Copy, Debug, PartialEq, Eq, Structural)]
pub enum Operation {
    /// Hide the window if it is visible, else show and focus it.
    Toggle,
    /// Show the window and request the focus, whatever its status.
    ShowAndFocus,
    /// Hide the window, whatever its status.
    Hide,
}

/// What the host has to do next for the operation in progress.
#[derive(Debug, PartialEq, Eq)]
pub enum Step {
    /// Ask the platform whether the window is visible.
    Observe,
    /// Ask the platform to carry out the action.
    Perform(WindowAction),
    /// Nothing is left to do; this is the operation's result.
    Complete(Result<(), ShellError>),
}

impl Step {
    /// An upper bound on the platform calls that are still to come.
    pub open spec fn calls_left(self) -> nat {
        match self {
            Step::Observe => 3,
            Step::Perform(WindowAction::Show) => 2,
            Step::Perform(_) => 1,
            Step::Complete(_) => 0,
        }
    }
}

impl Operation {
    /// The first step of the operation.
    pub open spec fn spec_start(self) -> Step {
        match self {
            Operation::Toggle => Step::Observe,
            Operation::ShowAndFocus => Step::Perform(WindowAction::Show),
            Operation::Hide => Step::Perform(WindowAction::Hide),
        }
    }

    /// The actions that the operation asks of the platform, in order, when
    /// the window's visibility is `visible` and every action is granted.
    pub open spec fn script(self, visible: bool) -> Seq<WindowAction> {
        match self {
            Operation::Toggle => if visible {
                seq![WindowAction::Hide]
            } else {
                seq![WindowAction::Show, WindowAction::SetFocus]
            },
            Operation::ShowAndFocus => seq![WindowAction::Show, WindowAction::SetFocus],
            Operation::Hide => seq![WindowAction::Hide],
        }
    }

    /// The window after the operation, when every action is granted.
    pub open spec fn outcome(self, window: WindowState) -> WindowState {
        match self {
            Operation::Toggle => if window.visible {
                WindowState::hidden()
            } else {
                WindowState::shown()
            },
            Operation::ShowAndFocus => WindowState::shown(),
            Operation::Hide => WindowState::hidden(),
        }
    }

    /// Starts the operation. Only a toggle needs to see the window first.
    #[verifier::when_used_as_spec(spec_start)]
    pub fn start(self) -> (step: Step)
        ensures
            step == self.spec_start(),
    {
        match self {
            Operation::Toggle => Step::Observe,
            Operation::ShowAndFocus => Step::Perform(WindowAction::Show),
            Operation::Hide => Step::Perform(WindowAction::Hide),
        }
    }
}

/// The step after the platform's report on the window's visibility.
pub open spec fn spec_on_observed(report: Result<bool, String>) -> Step {
    if report == Ok::<bool, String>(true) {
        Step::Perform(WindowAction::Hide)
    } else {
        Step::Perform(WindowAction::Show)
    }
}

/// The step after the platform's answer to `action`.
pub open spec fn spec_on_performed(action: WindowAction, answer: Result<(), String>) -> Step {
    match answer {
        Err(message) => Step::Complete(
            Err(ShellError::PlatformActionFailure { action, message }),
        ),
        Ok(_) => match action {
            WindowAction::Show => Step::Perform(WindowAction::SetFocus),
            WindowAction::SetFocus => Step::Complete(Ok(())),
            WindowAction::Hide => Step::Complete(Ok(())),
        },
    }
}

/// Continues a toggle with the platform's report on the window's visibility.
/// A window that is reported visible is hidden. Any other report, a failed
/// query too, counts as hidden, and the window is shown.
#[verifier::when_used_as_spec(spec_on_observed)]
pub fn on_observed(report: Result<bool, String>) -> (step: Step)
    ensures
        step == spec_on_observed(report),
{
    match report {
        Ok(true) => Step::Perform(WindowAction::Hide),
        _ => Step::Perform(WindowAction::Show),
    }
}

/// Continues an operation with the platform's answer to `action`. A refusal
/// ends the operation at once with the platform's message; a granted `Show` is
/// followed by the request for focus; any other granted action completes the
/// operation.
#[verifier::when_used_as_spec(spec_on_performed)]
pub fn on_performed(action: WindowAction, answer: Result<(), String>) -> (step: Step)
    ensures
        step == spec_on_performed(action, answer),
{
    match answer {
        Err(message) => Step::Complete(
            Err(ShellError::PlatformActionFailure { action, message }),
        ),
        Ok(_) => match action {
            WindowAction::Show => Step::Perform(WindowAction::SetFocus),
            WindowAction::SetFocus => Step::Complete(Ok(())),
            WindowAction::Hide => Step::Complete(Ok(())),
        },
    }
}

/// The windowing platform as the controller meets it: the window as it is,
/// and how the platform answers.
pub struct Platform {
    pub window: WindowState,
    /// The message with which the query for the visibility fails, where it
    /// does.
    pub query_failure: Option<String>,
    /// The actions that the platform refuses, each with its message.
    pub refusals: Map<WindowAction, String>,
}

impl Platform {
    /// The platform that reports `window` and grants every action.
    pub open spec fn granting(window: WindowState) -> Platform {
        Platform { window, query_failure: None, refusals: Map::empty() }
    }

    /// The answer to the query for the window's visibility.
    pub open spec fn report(self) -> Result<bool, String> {
        match self.query_failure {
            Some(message) => Err(message),
            None => Ok(self.window.visible),
        }
    }

    /// The answer to the request for `action`.
    pub open spec fn answer(self, action: WindowAction) -> Result<(), String> {
        if self.refusals.contains_key(action) {
            Err(self.refusals[action])
        } else {
            Ok(())
        }
    }

    /// The platform after the request for `action`: a granted action has its
    /// effect on the window, a refused one has none.
    pub open spec fn after(self, action: WindowAction) -> Platform {
        if self.refusals.contains_key(action) {
            self
        } else {
            Platform { window: action.effect(self.window), ..self }
        }
    }
}

/// What an exchange with the platform comes to: the window afterwards, the
/// actions that were asked for, in order, and the operation's result.
pub struct Trace {
    pub window: WindowState,
    pub performed: Seq<WindowAction>,
    pub result: Result<(), ShellError>,
}

/// Plays the exchange from `step` on against `platform`: each step is carried
/// out, and the platform's answer decides the next one.
pub open spec fn run(step: Step, platform: Platform) -> Trace
    decreases step.calls_left(),
{
    match step {
        Step::Observe => run(spec_on_observed(platform.report()), platform),
        Step::Perform(action) => {
            let rest = run(
                spec_on_performed(action, platform.answer(action)),
                platform.after(action),
            );
            Trace {
                window: rest.window,
                performed: seq![action] + rest.performed,
                result: rest.result,
            }
        },
        Step::Complete(result) => Trace {
            window: platform.window,
            performed: Seq::empty(),
            result,
        },
    }
}

/// Asks `platform` for the actions of `script`, one after another, up to the
/// first that it refuses. That refusal is the result; with none, the result is
/// success.
pub open spec fn play(script: Seq<WindowAction>, platform: Platform) -> Trace
    decreases script.len(),
{
    if script.len() == 0 {
        Trace { window: platform.window, performed: Seq::empty(), result: Ok(()) }
    } else {
        let action = script[0];
        match platform.answer(action) {
            Err(message) => Trace {
                window: platform.window,
                performed: seq![action],
                result: Err(ShellError::PlatformActionFailure { action, message }),
            },
            Ok(_) => {
                let rest = play(script.drop_first(), platform.after(action));
                Trace {
                    window: rest.window,
                    performed: seq![action] + rest.performed,
                    result: rest.result,
                }
            },
        }
    }
}

/// Plays the exchange from `step` on against a platform that reports `window`
/// and grants every action.
pub open spec fn granted_run(step: Step, window: WindowState) -> Trace {
    run(step, Platform::granting(window))
}

/// The window after `times` toggles in a row on a platform that grants every
/// action. Each toggle starts from the window as the one before left it.
pub open spec fn toggled(window: WindowState, times: nat) -> WindowState
    decreases times,
{
    if times == 0 {
        window
    } else {
        granted_run(Operation::Toggle.spec_start(), toggled(window, (times - 1) as nat)).window
    }
}

/// An operation is its script, played up to the first refusal. The script
/// of a toggle is chosen by the platform's report: the window counts as
/// visible only where the platform says so.
pub proof fn lemma_run_plays_script(operation: Operation, platform: Platform)
    ensures
        run(operation.spec_start(), platform) == play(
            operation.script(platform.report() == Ok::<bool, String>(true)),
            platform,
        ),
{
    let script = operation.script(platform.report() == Ok::<bool, String>(true));
    reveal_with_fuel(run, 4);
    reveal_with_fuel(play, 3);
    if script.len() == 2 {
        assert(script.drop_first() =~= seq![WindowAction::SetFocus]);
        assert(script.drop_first().drop_first() =~= Seq::<WindowAction>::empty());
    } else {
        assert(script.drop_first() =~= Seq::<WindowAction>::empty());
    }
    let played = play(script, platform);
    let ran = run(operation.spec_start(), platform);
    assert(ran.performed =~= played.performed);
}

/// A script succeeds exactly if the platform grants each of its actions, and
/// all of them have then been asked for.
pub proof fn lemma_play_succeeds_iff_granted(script: Seq<WindowAction>, platform: Platform)
    ensures
        play(script, platform).result is Ok <==> forall|i: int|
            0 <= i < script.len() ==> !platform.refusals.contains_key(#[trigger] script[i]),
        play(script, platform).result is Ok ==> play(script, platform).performed == script,
    decreases script.len(),
{
    if script.len() > 0 {
        let rest = script.drop_first();
        let next = platform.after(script[0]);
        lemma_play_succeeds_iff_granted(rest, next);
        if platform.refusals.contains_key(script[0]) {
        } else {
            assert(next.refusals == platform.refusals);
            if play(script, platform).result is Ok {
                assert forall|i: int| 0 <= i < script.len() implies !platform.refusals.contains_key(
                    #[trigger] script[i],
                ) by {
                    if i > 0 {
                        assert(script[i] == rest[i - 1]);
                    }
                }
                assert(play(script, platform).performed =~= script);
            } else {
                let i = choose|i: int|
                    0 <= i < rest.len() && next.refusals.contains_key(#[trigger] rest[i]);
                assert(script[i + 1] == rest[i]);
            }
        }
    } else {
        assert(play(script, platform).performed =~= script);
    }
}

/// A script fails with the first action that the platform refuses: the
/// failure names that action and carries the platform's message, the actions
/// before it have had their effect on the window, and none after it has been
/// asked for.
pub proof fn lemma_play_fails_at_first_refusal(
    script: Seq<WindowAction>,
    platform: Platform,
    at: int,
)
    requires
        0 <= at < script.len(),
        platform.refusals.contains_key(script[at]),
        forall|i: int| 0 <= i < at ==> !platform.refusals.contains_key(#[trigger] script[i]),
    ensures
        play(script, platform).result == Err::<(), ShellError>(
            ShellError::PlatformActionFailure {
                action: script[at],
                message: platform.refusals[script[at]],
            },
        ),
        play(script, platform).performed == script.take(at + 1),
        play(script, platform).window == play(script.take(at), platform).window,
    decreases script.len(),
{
    if at == 0 {
        assert(script.take(1) =~= seq![script[0]]);
        assert(script.take(0) =~= Seq::<WindowAction>::empty());
    } else {
        let rest = script.drop_first();
        let next = platform.after(script[0]);
        assert(!platform.refusals.contains_key(script[0]));
        assert(next.refusals == platform.refusals);
        assert forall|i: int| 0 <= i < at - 1 implies !next.refusals.contains_key(
            #[trigger] rest[i],
        ) by {
            assert(rest[i] == script[i + 1]);
        }
        lemma_play_fails_at_first_refusal(rest, next, at - 1);
        assert(script.take(at + 1) =~= seq![script[0]] + rest.take(at));
        assert(script.take(at).drop_first() =~= rest.take(at - 1));
        assert(script.take(at)[0] == script[0]);
    }
}

/// On a platform that grants every action, an operation asks for exactly the
/// actions of its script, leaves the window as its outcome says, and succeeds.
pub proof fn lemma_granted_run(operation: Operation, window: WindowState)
    ensures
        granted_run(operation.spec_start(), window).window == operation.outcome(window),
        granted_run(operation.spec_start(), window).performed == operation.script(window.visible),
        granted_run(operation.spec_start(), window).result == Ok::<(), ShellError>(()),
{
    reveal_with_fuel(run, 4);
    assert(granted_run(operation.spec_start(), window).performed =~= operation.script(
        window.visible,
    ));
}

/// Each toggle flips the window's visibility: after `times` granted toggles
/// the window is visible exactly if it was visible before and `times` is
/// even, or was hidden before and `times` is odd.
pub proof fn lemma_toggles_flip_visibility(window: WindowState, times: nat)
    ensures
        toggled(window, times).visible == (window.visible != (times % 2 == 1)),
    decreases times,
{
    if times > 0 {
        lemma_toggles_flip_visibility(window, (times - 1) as nat);
        lemma_granted_run(Operation::Toggle, toggled(window, (times - 1) as nat));
    }
}

/// Starting from a hidden window, the window is visible after `times` granted
/// toggles exactly if `times` is odd.
pub proof fn lemma_toggle_parity(times: nat)
    ensures
        toggled(WindowState::hidden(), times).visible == (times % 2 == 1),
{
    lemma_toggles_flip_visibility(WindowState::hidden(), times);
}

/// Runs an operation to its end against a platform that reports `window` and
/// grants every action. Returns the window afterwards and the actions that
/// were asked for, in order.
pub fn run_granted(operation: Operation, window: WindowState) -> (after: (
    WindowState,
    Vec<WindowAction>,
))
    ensures
        after.0 == operation.outcome(window),
        after.1@ == operation.script(window.visible),
{
    let mut step = operation.start();
    let mut current = window;
    let mut performed: Vec<WindowAction> = Vec::new();
    proof {
        lemma_granted_run(operation, window);
    }
    loop
        invariant
            granted_run(step, current).window == operation.outcome(window),
            performed@ + granted_run(step, current).performed == operation.script(
                window.visible,
            ),
        decreases step.calls_left(),
    {
        match step {
            Step::Observe => {
                step = on_observed(Ok(current.visible));
            },
            Step::Perform(action) => {
                proof {
                    let rest = granted_run(
                        spec_on_performed(action, Ok::<(), String>(())),
                        action.effect(current),
                    );
                    assert(Platform::granting(current).after(action) == Platform::granting(
                        action.effect(current),
                    ));
                    assert((performed@ + seq![action]) + rest.performed =~= performed@ + (
                        seq![action] + rest.performed));
                }
                current = action.apply(current);
                performed.push(action);
                step = on_performed(action, Ok(()));
            },
            Step::Complete(_) => {
                assert(performed@ + Seq::<WindowAction>::empty() =~= performed@);
                return (current, performed);
            },
        }
    }
}

} // verus!
