//! Scripts: what has to be done to a keyboard, in order, up to the first failure.
//!
//! A script mixes commands to the host with steps that the library takes itself: changes of
//! the settings that must only happen once the commands before them have succeeded, and
//! reports that depend on how many lamps the device told.

use vstd::prelude::*;

use crate::aura::{AuraConfig, AuraEffect, Colour};
use crate::lamp_array::{
    lamp_count, range_update, range_update_report, read_lamp_count, task_for, EffectTask,
    EffectTaskView, ATTRIBUTES_LEN,
};

verus! {

/// Why the library itself refuses to go on.
#[derive(Debug, Clone, Copy, PartialEq, Eq, Structural)]
pub enum AuraError {
    /// There is no keyboard that could be reached.
    NoAuraKeyboard,
    /// The lamp array has no lamps.
    ZeroLamps,
    /// There is nothing that sets the brightness.
    NoBacklight,
}

impl AuraError {
    /// What is missing, in words, where something is.
    pub open spec fn missing_text(self) -> Option<Seq<char>> {
        match self {
            AuraError::NoAuraKeyboard => None,
            AuraError::ZeroLamps => Some("LampArray reports zero lamps"@),
            AuraError::NoBacklight => Some("No LED backlight control available"@),
        }
    }

    /// What is missing, in words.
    pub fn missing(&self) -> (text: Option<String>)
        ensures
            match text {
                Some(words) => self.missing_text() == Some(words@),
                None => self.missing_text() is None,
            },
    {
        match self {
            AuraError::NoAuraKeyboard => None,
            AuraError::ZeroLamps => Some("LampArray reports zero lamps".to_owned()),
            AuraError::NoBacklight => Some("No LED backlight control available".to_owned()),
        }
    }
}

/// What the host has to do.
pub enum Command {
    /// Abort the running animation, if any. Never fails.
    StopEffect,
    /// Start this animation.
    StartEffect(EffectTask),
    /// Write these bytes to the hidraw device.
    WriteBytes(Vec<u8>),
    /// Send this feature report.
    SetFeature(Vec<u8>),
    /// Fetch a feature report into this buffer.
    GetFeature(Vec<u8>),
    /// Set the brightness of the backlight.
    SetBacklight(u8),
    /// Set the mode of the backlight.
    SetKbdRgbMode(Vec<u8>),
    /// Set the power state of the backlight.
    SetKbdRgbState(Vec<u8>),
    /// Write the settings to their file. Never fails.
    SaveConfig,
}

/// The mathematical value of a `Command`.
pub enum CommandView {
    StopEffect,
    StartEffect(EffectTaskView),
    WriteBytes(Seq<u8>),
    SetFeature(Seq<u8>),
    GetFeature(Seq<u8>),
    SetBacklight(u8),
    SetKbdRgbMode(Seq<u8>),
    SetKbdRgbState(Seq<u8>),
    SaveConfig,
}

impl View for Command {
    type V = CommandView;

    open spec fn view(&self) -> CommandView {
        match *self {
            Command::StopEffect => CommandView::StopEffect,
            Command::StartEffect(task) => CommandView::StartEffect(task@),
            Command::WriteBytes(bytes) => CommandView::WriteBytes(bytes@),
            Command::SetFeature(report) => CommandView::SetFeature(report@),
            Command::GetFeature(report) => CommandView::GetFeature(report@),
            Command::SetBacklight(level) => CommandView::SetBacklight(level),
            Command::SetKbdRgbMode(bytes) => CommandView::SetKbdRgbMode(bytes@),
            Command::SetKbdRgbState(bytes) => CommandView::SetKbdRgbState(bytes@),
            Command::SaveConfig => CommandView::SaveConfig,
        }
    }
}

/// A step of a script.
pub enum Step {
    /// The host has something to do.
    Do(Command),
    /// Note in the settings whether each key is lit on its own.
    SetPerKeyMode(bool),
    /// Note in the settings that the power settings of the Ally were reset.
    SetAllyFix,
    /// Give all lamps this colour and intensity.
    PushColour(Colour, u8),
    /// Animate the lamps with this effect, up to this intensity.
    Animate(AuraEffect, u8),
    /// Refuse to go on.
    Refuse(AuraError),
}

/// The mathematical value of a `Step`.
pub enum StepView {
    Do(CommandView),
    SetPerKeyMode(bool),
    SetAllyFix,
    PushColour(Colour, u8),
    Animate(AuraEffect, u8),
    Refuse(AuraError),
}

impl View for Step {
    type V = StepView;

    open spec fn view(&self) -> StepView {
        match *self {
            Step::Do(command) => StepView::Do(command@),
            Step::SetPerKeyMode(active) => StepView::SetPerKeyMode(active),
            Step::SetAllyFix => StepView::SetAllyFix,
            Step::PushColour(colour, intensity) => StepView::PushColour(colour, intensity),
            Step::Animate(effect, intensity) => StepView::Animate(effect, intensity),
            Step::Refuse(error) => StepView::Refuse(error),
        }
    }
}

/// The steps of a script as mathematical values.
pub open spec fn steps_view(steps: Seq<Step>) -> Seq<StepView> {
    steps.map_values(|step: Step| step@)
}

/// How the last command went.
pub enum Outcome {
    Done,
    /// The attributes of a lamp array were fetched.
    Attributes([u8; ATTRIBUTES_LEN]),
    Failed,
}

/// Where a script stands.
pub enum Progress {
    /// The host has something to do.
    Do(Command),
    /// Every step was taken.
    Completed,
    /// The library refused to go on.
    Refused(AuraError),
    /// A command failed; nothing that came after it is done.
    Aborted,
}

/// The mathematical value of a `Progress`.
pub enum ProgressView {
    Do(CommandView),
    Completed,
    Refused(AuraError),
    Aborted,
}

impl View for Progress {
    type V = ProgressView;

    open spec fn view(&self) -> ProgressView {
        match *self {
            Progress::Do(command) => ProgressView::Do(command@),
            Progress::Completed => ProgressView::Completed,
            Progress::Refused(error) => ProgressView::Refused(error),
            Progress::Aborted => ProgressView::Aborted,
        }
    }
}

/// A script under way: the steps that are left, and the number of lamps that the device
/// told (zero as long as it has not).
pub struct Script {
    steps: Vec<Step>,
    lamps: u16,
}

/// The mathematical value of a `Script`.
pub struct ScriptView {
    pub steps: Seq<StepView>,
    pub lamps: nat,
}

impl View for Script {
    type V = ScriptView;

    closed spec fn view(&self) -> ScriptView {
        ScriptView { steps: steps_view(self.steps@), lamps: self.lamps as nat }
    }
}

/// A script, the settings and where the script stands.
pub struct ScriptState {
    pub script: ScriptView,
    pub config: AuraConfig,
    pub progress: ProgressView,
}

/// A script before its first step.
pub open spec fn fresh(steps: Seq<StepView>) -> ScriptView {
    ScriptView { steps, lamps: 0 }
}

/// A script that is over.
pub open spec fn over(lamps: nat) -> ScriptView {
    ScriptView { steps: Seq::empty(), lamps }
}

/// Goes through the steps up to the next command or the end.
pub open spec fn advanced(script: ScriptView, config: AuraConfig) -> ScriptState
    decreases script.steps.len(),
{
    let rest = ScriptView { steps: script.steps.drop_first(), ..script };
    if script.steps.len() == 0 {
        ScriptState { script, config, progress: ProgressView::Completed }
    } else {
        match script.steps[0] {
            StepView::Do(command) => ScriptState {
                script: rest,
                config,
                progress: ProgressView::Do(command),
            },
            StepView::SetPerKeyMode(active) => advanced(
                rest,
                AuraConfig { per_key_mode_active: active, ..config },
            ),
            StepView::SetAllyFix => advanced(rest, AuraConfig { ally_fix: Some(true), ..config }),
            StepView::PushColour(colour, intensity) => if script.lamps == 0 {
                ScriptState {
                    script: over(script.lamps),
                    config,
                    progress: ProgressView::Refused(AuraError::ZeroLamps),
                }
            } else {
                ScriptState {
                    script: rest,
                    config,
                    progress: ProgressView::Do(
                        CommandView::SetFeature(range_update(script.lamps, colour, intensity)),
                    ),
                }
            },
            StepView::Animate(effect, intensity) => if script.lamps == 0 {
                ScriptState {
                    script: over(script.lamps),
                    config,
                    progress: ProgressView::Refused(AuraError::ZeroLamps),
                }
            } else {
                ScriptState {
                    script: rest,
                    config,
                    progress: ProgressView::Do(
                        CommandView::StartEffect(task_for(effect, intensity, script.lamps)),
                    ),
                }
            },
            StepView::Refuse(error) => ScriptState {
                script: over(script.lamps),
                config,
                progress: ProgressView::Refused(error),
            },
        }
    }
}

/// What the outcome of a command leads to.
pub open spec fn resumed(script: ScriptView, config: AuraConfig, outcome: Outcome) -> ScriptState {
    match outcome {
        Outcome::Done => advanced(script, config),
        Outcome::Attributes(report) => advanced(
            ScriptView { lamps: lamp_count(report@), ..script },
            config,
        ),
        Outcome::Failed => ScriptState {
            script: over(script.lamps),
            config,
            progress: ProgressView::Aborted,
        },
    }
}

impl Script {
    /// A script of these steps.
    pub fn new(steps: Vec<Step>) -> (script: Script)
        ensures
            script@ == fresh(steps_view(steps@)),
    {
        Script { steps, lamps: 0 }
    }

    /// Goes to the first command.
    pub fn start(&mut self, config: &mut AuraConfig) -> (progress: Progress)
        ensures
            (ScriptState {
                script: final(self)@,
                config: *final(config),
                progress: progress@,
            }) == advanced(old(self)@, *old(config)),
    {
        self.advance(config)
    }

    /// Takes the steps up to the next command or the end.
    fn advance(&mut self, config: &mut AuraConfig) -> (progress: Progress)
        ensures
            (ScriptState {
                script: final(self)@,
                config: *final(config),
                progress: progress@,
            }) == advanced(old(self)@, *old(config)),
    {
        while self.steps.len() > 0
            invariant
                advanced(self@, *config) == advanced(old(self)@, *old(config)),
            decreases self.steps.len(),
        {
            let ghost before = self@;
            let step = self.steps.remove(0);
            assert(before.steps[0] == step@);
            assert(before.steps.drop_first() == self@.steps);
            match step {
                Step::Do(command) => {
                    return Progress::Do(command);
                },
                Step::SetPerKeyMode(active) => {
                    config.per_key_mode_active = active;
                },
                Step::SetAllyFix => {
                    config.ally_fix = Some(true);
                },
                Step::PushColour(colour, intensity) => {
                    if self.lamps == 0 {
                        self.steps.clear();
                        assert(self@.steps == Seq::<StepView>::empty());
                        return Progress::Refused(AuraError::ZeroLamps);
                    }
                    return Progress::Do(
                        Command::SetFeature(range_update_report(self.lamps, colour, intensity)),
                    );
                },
                Step::Animate(effect, intensity) => {
                    if self.lamps == 0 {
                        self.steps.clear();
                        assert(self@.steps == Seq::<StepView>::empty());
                        return Progress::Refused(AuraError::ZeroLamps);
                    }
                    return Progress::Do(
                        Command::StartEffect(EffectTask::new(&effect, intensity, self.lamps)),
                    );
                },
                Step::Refuse(error) => {
                    self.steps.clear();
                    assert(self@.steps == Seq::<StepView>::empty());
                    return Progress::Refused(error);
                },
            }
        }
        Progress::Completed
    }

    /// Goes on with the outcome of the last command.
    pub fn resume(&mut self, config: &mut AuraConfig, outcome: Outcome) -> (progress: Progress)
        ensures
            (ScriptState {
                script: final(self)@,
                config: *final(config),
                progress: progress@,
            }) == resumed(old(self)@, *old(config), outcome),
    {
        match outcome {
            Outcome::Done => self.advance(config),
            Outcome::Attributes(report) => {
                self.lamps = read_lamp_count(&report);
                self.advance(config)
            },
            Outcome::Failed => {
                self.steps.clear();
                assert(self@.steps == Seq::<StepView>::empty());
                Progress::Aborted
            },
        }
    }
}

/// What a script amounts to if no command fails: the commands in order, how it ends, and the
/// settings then.
pub struct Run {
    pub commands: Seq<CommandView>,
    pub end: ProgressView,
    pub config: AuraConfig,
}

/// The first `commands` commands of a script and what follows, if no command fails and the
/// device tells `told` lamps whenever it is asked.
pub open spec fn run(script: ScriptView, config: AuraConfig, told: nat, commands: nat) -> Run
    decreases commands,
{
    let state = advanced(script, config);
    match state.progress {
        ProgressView::Do(command) if commands > 0 => {
            let rest = run(
                if command is GetFeature {
                    ScriptView { lamps: told, ..state.script }
                } else {
                    state.script
                },
                state.config,
                told,
                (commands - 1) as nat,
            );
            Run { commands: seq![command] + rest.commands, ..rest }
        },
        end => Run { commands: Seq::empty(), end, config: state.config },
    }
}

/// After a failure nothing more is done: the settings stay as they are, and going on gives
/// no command.
pub proof fn law_failure_ends_the_script(script: ScriptView, config: AuraConfig, later: Outcome)
    ensures
        resumed(script, config, Outcome::Failed).progress == ProgressView::Aborted,
        resumed(script, config, Outcome::Failed).config == config,
        !(resumed(resumed(script, config, Outcome::Failed).script, config, later).progress is Do),
{
}

/// A script gives its commands in order, and each only after the one before has succeeded:
/// going on never gives a command from before.
pub proof fn law_commands_come_in_order(script: ScriptView, config: AuraConfig)
    ensures
        advanced(script, config).script.steps.len() <= script.steps.len(),
        advanced(script, config).progress is Do ==> {
            let left = advanced(script, config).script.steps;
            &&& left.len() < script.steps.len()
            &&& left == script.steps.subrange(
                script.steps.len() - left.len(),
                script.steps.len() as int,
            )
        },
    decreases script.steps.len(),
{
    if script.steps.len() > 0 {
        let rest = ScriptView { steps: script.steps.drop_first(), ..script };
        match script.steps[0] {
            StepView::SetPerKeyMode(active) => {
                let changed = AuraConfig { per_key_mode_active: active, ..config };
                law_commands_come_in_order(rest, changed);
                lemma_suffix_of_rest(script.steps, advanced(rest, changed).script.steps);
            },
            StepView::SetAllyFix => {
                let changed = AuraConfig { ally_fix: Some(true), ..config };
                law_commands_come_in_order(rest, changed);
                lemma_suffix_of_rest(script.steps, advanced(rest, changed).script.steps);
            },
            _ => {
                assert(rest.steps =~= script.steps.subrange(1, script.steps.len() as int));
            },
        }
    }
}

/// A suffix of all steps but the first is a suffix of all steps.
proof fn lemma_suffix_of_rest(steps: Seq<StepView>, suffix: Seq<StepView>)
    requires
        steps.len() > 0,
        suffix.len() < steps.len(),
    ensures
        suffix == steps.drop_first().subrange(
            steps.len() - 1 - suffix.len(),
            steps.len() - 1,
        ) ==> suffix == steps.subrange(steps.len() - suffix.len(), steps.len() as int),
{
    assert(steps.drop_first().subrange(steps.len() - 1 - suffix.len(), steps.len() - 1)
        =~= steps.subrange(steps.len() - suffix.len(), steps.len() as int));
}

/// One command at the front of a script.
pub(crate) proof fn lemma_do_run(
    command: CommandView,
    steps: Seq<StepView>,
    config: AuraConfig,
    told: nat,
    commands: nat,
)
    requires
        steps.len() > 0,
        steps[0] == StepView::Do(command),
        !(command is GetFeature),
    ensures
        run(fresh(steps), config, told, commands + 1) == (Run {
            commands: seq![command] + run(
                fresh(steps.drop_first()),
                config,
                told,
                commands,
            ).commands,
            ..run(fresh(steps.drop_first()), config, told, commands)
        }),
{
}


/// A script passes over the notes on the settings at its front and stops at the first other
/// step, which decides what comes next; only the steps behind it are left. A command is handed
/// on as it is. A colour or an animation goes to all lamps that the device told; where it told
/// none, and at a refusal, the script is over.
pub proof fn law_first_command_comes_next(script: ScriptView, config: AuraConfig, n: int)
    requires
        0 <= n < script.steps.len(),
        forall|i: int|
            0 <= i < n ==> (#[trigger] script.steps[i]) is SetPerKeyMode || script.steps[i]
                is SetAllyFix,
    ensures
        ({
            let next = advanced(script, config);
            let left = script.steps.subrange(n + 1, script.steps.len() as int);
            match script.steps[n] {
                StepView::Do(command) => next.progress == ProgressView::Do(command)
                    && next.script.steps == left && next.script.lamps == script.lamps,
                StepView::PushColour(colour, intensity) if script.lamps > 0 => next.progress
                    == ProgressView::Do(
                    CommandView::SetFeature(range_update(script.lamps, colour, intensity)),
                ) && next.script.steps == left && next.script.lamps == script.lamps,
                StepView::Animate(effect, intensity) if script.lamps > 0 => next.progress
                    == ProgressView::Do(
                    CommandView::StartEffect(task_for(effect, intensity, script.lamps)),
                ) && next.script.steps == left && next.script.lamps == script.lamps,
                StepView::PushColour(_, _) | StepView::Animate(_, _) => next.progress
                    == ProgressView::Refused(AuraError::ZeroLamps) && next.script.steps.len() == 0,
                StepView::Refuse(error) => next.progress == ProgressView::Refused(error)
                    && next.script.steps.len() == 0,
                _ => true,
            }
        }),
    decreases n,
{
    if n > 0 {
        let rest = ScriptView { steps: script.steps.drop_first(), ..script };
        let changed = match script.steps[0] {
            StepView::SetPerKeyMode(active) => AuraConfig { per_key_mode_active: active, ..config },
            _ => AuraConfig { ally_fix: Some(true), ..config },
        };
        assert(script.steps[0] is SetPerKeyMode || script.steps[0] is SetAllyFix);
        assert(forall|i: int|
            0 <= i < n - 1 ==> #[trigger] rest.steps[i] == script.steps[i + 1]);
        law_first_command_comes_next(rest, changed, n - 1);
        assert(rest.steps[n - 1] == script.steps[n]);
        assert(rest.steps.subrange(n, rest.steps.len() as int) =~= script.steps.subrange(
            n + 1,
            script.steps.len() as int,
        ));
    } else {
        assert(script.steps.drop_first() =~= script.steps.subrange(
            1,
            script.steps.len() as int,
        ));
    }
}

/// A script of which nothing but notes on the settings is left is completed.
pub proof fn law_notes_alone_complete_a_script(script: ScriptView, config: AuraConfig)
    requires
        forall|i: int|
            0 <= i < script.steps.len() ==> (#[trigger] script.steps[i]) is SetPerKeyMode
                || script.steps[i] is SetAllyFix,
    ensures
        advanced(script, config).progress == ProgressView::Completed,
    decreases script.steps.len(),
{
    if script.steps.len() > 0 {
        let rest = ScriptView { steps: script.steps.drop_first(), ..script };
        let changed = match script.steps[0] {
            StepView::SetPerKeyMode(active) => AuraConfig { per_key_mode_active: active, ..config },
            _ => AuraConfig { ally_fix: Some(true), ..config },
        };
        assert(script.steps[0] is SetPerKeyMode || script.steps[0] is SetAllyFix);
        assert(forall|i: int|
            0 <= i < rest.steps.len() ==> #[trigger] rest.steps[i] == script.steps[i + 1]);
        law_notes_alone_complete_a_script(rest, changed);
    }
}

/// The settings change by the notes that a script passes over and by nothing else: of the
/// notes on the mode for single keys the last one counts, and a note on the Ally stays. Every
/// other setting is left alone.
pub proof fn law_notes_alone_change_the_settings(
    script: ScriptView,
    config: AuraConfig,
    n: int,
    last: int,
)
    requires
        0 <= n <= script.steps.len(),
        forall|i: int|
            0 <= i < n ==> (#[trigger] script.steps[i]) is SetPerKeyMode || script.steps[i]
                is SetAllyFix,
        n < script.steps.len() ==> !(script.steps[n] is SetPerKeyMode) && !(script.steps[n]
            is SetAllyFix),
        -1 <= last < n,
        last >= 0 ==> script.steps[last] is SetPerKeyMode,
        forall|i: int| last < i < n ==> !((#[trigger] script.steps[i]) is SetPerKeyMode),
    ensures
        ({
            let after = advanced(script, config).config;
            &&& after == (AuraConfig {
                per_key_mode_active: after.per_key_mode_active,
                ally_fix: after.ally_fix,
                ..config
            })
            &&& last >= 0 ==> StepView::SetPerKeyMode(after.per_key_mode_active)
                == script.steps[last]
            &&& last < 0 ==> after.per_key_mode_active == config.per_key_mode_active
            &&& (exists|i: int| 0 <= i < n && (#[trigger] script.steps[i]) is SetAllyFix)
                ==> after.ally_fix == Some(true)
            &&& (forall|i: int| 0 <= i < n ==> !((#[trigger] script.steps[i]) is SetAllyFix))
                ==> after.ally_fix == config.ally_fix
        }),
    decreases n,
{
    if n > 0 {
        let rest = ScriptView { steps: script.steps.drop_first(), ..script };
        let changed = match script.steps[0] {
            StepView::SetPerKeyMode(active) => AuraConfig { per_key_mode_active: active, ..config },
            _ => AuraConfig { ally_fix: Some(true), ..config },
        };
        assert(script.steps[0] is SetPerKeyMode || script.steps[0] is SetAllyFix);
        assert(forall|i: int|
            0 <= i < rest.steps.len() ==> #[trigger] rest.steps[i] == script.steps[i + 1]);
        law_notes_alone_change_the_settings(
            rest,
            changed,
            n - 1,
            if last >= 0 {
                last - 1
            } else {
                -1
            },
        );
        let after = advanced(script, config).config;
        assert(after == advanced(rest, changed).config);
        if exists|i: int| 0 <= i < n && (#[trigger] script.steps[i]) is SetAllyFix {
            let i = choose|i: int| 0 <= i < n && (#[trigger] script.steps[i]) is SetAllyFix;
            if i > 0 {
                assert(rest.steps[i - 1] is SetAllyFix);
            } else {
                assert(changed.ally_fix == Some(true));
                if forall|j: int| 0 <= j < n - 1 ==> !((#[trigger] rest.steps[j]) is SetAllyFix) {
                    assert(after.ally_fix == changed.ally_fix);
                }
            }
        } else {
            assert(forall|j: int| 0 <= j < n - 1 ==> !((#[trigger] rest.steps[j]) is SetAllyFix));
            assert(!(script.steps[0] is SetAllyFix));
        }
    }
}

/// A script knows of no lamps until the device has told, and from then on it knows of as many
/// as were told: the next colour reaches exactly that many, and is refused where there are
/// none. Any other outcome leaves the number alone.
pub proof fn law_told_lamps_are_reached(
    script: ScriptView,
    config: AuraConfig,
    report: [u8; ATTRIBUTES_LEN],
    colour: Colour,
    intensity: u8,
)
    requires
        script.steps.len() > 0,
        script.steps[0] == StepView::PushColour(colour, intensity),
    ensures
        fresh(script.steps).lamps == 0,
        fresh(script.steps).steps == script.steps,
        ({
            let lamps = (report@[1] + 256 * report@[2]) as nat;
            let told = resumed(script, config, Outcome::Attributes(report));
            &&& lamps > 0 ==> told.script.lamps == lamps && told.progress == ProgressView::Do(
                CommandView::SetFeature(range_update(lamps, colour, intensity)),
            )
            &&& lamps == 0 ==> told.progress == ProgressView::Refused(AuraError::ZeroLamps)
        }),
        script.lamps > 0 ==> resumed(script, config, Outcome::Done).progress == ProgressView::Do(
            CommandView::SetFeature(range_update(script.lamps, colour, intensity)),
        ),
{
}

/// An outcome changes neither the steps that are left nor the settings by itself: what comes
/// next after a success is what the steps say.
pub proof fn law_success_goes_on(script: ScriptView, config: AuraConfig, report: [u8; ATTRIBUTES_LEN])
    ensures
        resumed(script, config, Outcome::Done) == advanced(script, config),
        resumed(script, config, Outcome::Attributes(report)) == advanced(
            ScriptView {
                lamps: (report@[1] + 256 * report@[2]) as nat,
                steps: script.steps,
            },
            config,
        ),
        resumed(script, config, Outcome::Failed).script.steps.len() == 0,
{
}

/// What a refusal says is missing.
pub proof fn law_refusals_in_words()
    ensures
        AuraError::NoAuraKeyboard.missing_text() is None,
        AuraError::ZeroLamps.missing_text() == Some("LampArray reports zero lamps"@),
        AuraError::NoBacklight.missing_text() == Some("No LED backlight control available"@),
{
}


/// A command and a step carry what they hold, and nothing else.
pub proof fn law_commands_carry_their_bytes(
    bytes: Vec<u8>,
    level: u8,
    task: EffectTask,
    command: Command,
    effect: AuraEffect,
    colour: Colour,
    active: bool,
    error: AuraError,
)
    ensures
        Command::StopEffect@ == CommandView::StopEffect,
        Command::SaveConfig@ == CommandView::SaveConfig,
        Command::StartEffect(task)@ == CommandView::StartEffect(task@),
        Command::WriteBytes(bytes)@ == CommandView::WriteBytes(bytes@),
        Command::SetFeature(bytes)@ == CommandView::SetFeature(bytes@),
        Command::GetFeature(bytes)@ == CommandView::GetFeature(bytes@),
        Command::SetBacklight(level)@ == CommandView::SetBacklight(level),
        Command::SetKbdRgbMode(bytes)@ == CommandView::SetKbdRgbMode(bytes@),
        Command::SetKbdRgbState(bytes)@ == CommandView::SetKbdRgbState(bytes@),
        Step::Do(command)@ == StepView::Do(command@),
        Step::SetPerKeyMode(active)@ == StepView::SetPerKeyMode(active),
        Step::SetAllyFix@ == StepView::SetAllyFix,
        Step::PushColour(colour, level)@ == StepView::PushColour(colour, level),
        Step::Animate(effect, level)@ == StepView::Animate(effect, level),
        Step::Refuse(error)@ == StepView::Refuse(error),
        Progress::Do(command)@ == ProgressView::Do(command@),
        Progress::Completed@ == ProgressView::Completed,
        Progress::Refused(error)@ == ProgressView::Refused(error),
        Progress::Aborted@ == ProgressView::Aborted,
{
}

} // verus!
