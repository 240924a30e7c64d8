//! The HID LampArray protocol: feature reports, and the animations that the host drives
//! because the lamps are passive.

use vstd::prelude::*;

use crate::aura::{AuraEffect, Colour, ModeStyle, Speed};

verus! {

/// The length of the report that tells the attributes of a lamp array.
pub const ATTRIBUTES_LEN: usize = 23;

/// The length of a range update.
pub const RANGE_UPDATE_LEN: usize = 10;

/// Milliseconds between two frames of an animation.
pub const FRAME_MS: u32 = 33;

/// The report that takes the lamps out of autonomous mode, so that the host owns them.
pub open spec fn autonomous_off() -> Seq<u8> {
    seq![0x46, 0x00]
}

/// The empty report that asks for the attributes.
pub open spec fn attributes_request() -> Seq<u8> {
    seq![0x41u8] + Seq::new((ATTRIBUTES_LEN - 1) as nat, |i: int| 0u8)
}

/// The number of lamps that the attributes tell: two bytes after the report ID, the low one
/// first.
pub open spec fn lamp_count(attributes: Seq<u8>) -> nat {
    attributes[1] as nat + 256 * attributes[2] as nat
}

/// The report that gives all of `lamps` lamps the same colour and intensity: report ID,
/// flags, the first lamp and the last one (low byte first), then the colour and intensity.
pub open spec fn range_update(lamps: nat, colour: Colour, intensity: u8) -> Seq<u8> {
    seq![
        0x45,
        0x01,
        0x00,
        0x00,
        ((lamps - 1) % 256) as u8,
        ((lamps - 1) / 256) as u8,
        colour.r,
        colour.g,
        colour.b,
        intensity,
    ]
}

/// Fills in the report that takes the lamps out of autonomous mode.
pub fn autonomous_off_report() -> (report: Vec<u8>)
    ensures
        report@ == autonomous_off(),
{
    vec![0x46, 0x00]
}

/// Fills in the report that asks for the attributes.
pub fn attributes_request_report() -> (report: Vec<u8>)
    ensures
        report@ == attributes_request(),
{
    let mut report: Vec<u8> = vec![0u8; ATTRIBUTES_LEN];
    report[0] = 0x41;
    assert(report@ == attributes_request());
    report
}

/// Reads the number of lamps.
pub fn read_lamp_count(attributes: &[u8; ATTRIBUTES_LEN]) -> (lamps: u16)
    ensures
        lamps == lamp_count(attributes@),
{
    attributes[1] as u16 + 256 * attributes[2] as u16
}

/// Fills in the report that gives all lamps the same colour and intensity.
pub fn range_update_report(lamps: u16, colour: Colour, intensity: u8) -> (report: Vec<u8>)
    requires
        lamps > 0,
    ensures
        report@ == range_update(lamps as nat, colour, intensity),
{
    let last: u16 = lamps - 1;
    assert((last & 0xff) as u8 == last % 256 && ((last >> 8) & 0xff) as u8 == last / 256)
        by (bit_vector);
    vec![
        0x45,
        0x01,
        0x00,
        0x00,
        (last & 0xff) as u8,
        ((last >> 8) & 0xff) as u8,
        colour.r,
        colour.g,
        colour.b,
        intensity,
    ]
}

/// A range update covers every lamp and no more: it starts at the first one, and the end
/// that it names is the last one.
pub proof fn law_range_update_covers_all_lamps(lamps: nat, colour: Colour, intensity: u8)
    requires
        0 < lamps <= 0xffff,
    ensures
        ({
            let report = range_update(lamps, colour, intensity);
            &&& report.len() == RANGE_UPDATE_LEN
            &&& report[2] + 256 * report[3] == 0
            &&& report[4] + 256 * report[5] == lamps - 1
        }),
{
}

/// Two range updates are equal only if they reach as far, in the same colour and intensity.
pub proof fn law_range_update_tells_all(
    lamps: nat,
    colour: Colour,
    intensity: u8,
    other_lamps: nat,
    other_colour: Colour,
    other_intensity: u8,
)
    requires
        0 < lamps <= 0xffff,
        0 < other_lamps <= 0xffff,
        range_update(lamps, colour, intensity) == range_update(
            other_lamps,
            other_colour,
            other_intensity,
        ),
    ensures
        lamps == other_lamps,
        colour == other_colour,
        intensity == other_intensity,
{
    let report = range_update(lamps, colour, intensity);
    let other = range_update(other_lamps, other_colour, other_intensity);
    law_range_update_covers_all_lamps(lamps, colour, intensity);
    law_range_update_covers_all_lamps(other_lamps, other_colour, other_intensity);
    assert(report[6] == other[6] && report[7] == other[7] && report[8] == other[8] && report[9]
        == other[9]);
}

/// Milliseconds that one cycle of an animation takes.
pub open spec fn period_ms(speed: Speed) -> u32 {
    match speed {
        Speed::Low => 4000,
        Speed::Med => 2000,
        Speed::High => 800,
    }
}

/// Whole frames in one cycle, and at least one.
pub open spec fn frames_in(period: u32) -> u32 {
    if period / FRAME_MS < 1 {
        1
    } else {
        period / FRAME_MS
    }
}

/// An animation that the host drives by one range update for each frame.
#[derive(Debug, Clone, Copy)]
pub struct EffectTask {
    style: ModeStyle,
    colour: Colour,
    intensity: u8,
    lamps: u16,
    total_frames: u32,
    frame: u32,
}

/// The mathematical value of an `EffectTask`.
pub struct EffectTaskView {
    pub style: ModeStyle,
    pub colour: Colour,
    /// The cap on the intensity.
    pub intensity: u8,
    pub lamps: nat,
    pub total_frames: nat,
    /// The number of frames so far.
    pub frame: nat,
}

impl View for EffectTask {
    type V = EffectTaskView;

    closed spec fn view(&self) -> EffectTaskView {
        EffectTaskView {
            style: self.style,
            colour: self.colour,
            intensity: self.intensity,
            lamps: self.lamps as nat,
            total_frames: self.total_frames as nat,
            frame: self.frame as nat,
        }
    }
}

/// The samples of the waveforms at one moment of a cycle, already scaled to a byte: how
/// bright the lamps are, for the styles that keep the hue, and the hue at full saturation,
/// for those that keep the brightness.
#[derive(Debug, Clone, Copy, PartialEq, Eq, Structural)]
pub struct Sample {
    pub level: u8,
    pub hue: Colour,
}

/// The animation of an effect before its first frame.
pub open spec fn task_for(effect: AuraEffect, intensity: u8, lamps: nat) -> EffectTaskView {
    EffectTaskView {
        style: effect.mode.style,
        colour: effect.colour1,
        intensity,
        lamps,
        total_frames: frames_in(period_ms(effect.speed)) as nat,
        frame: 0,
    }
}

impl EffectTaskView {
    /// There are lamps to light and frames to show.
    pub open spec fn wf(self) -> bool {
        &&& 0 < self.lamps <= 0xffff
        &&& 0 < self.total_frames <= u32::MAX
        &&& self.frame <= u32::MAX
    }

    /// The range update of a frame: breathing and pulsing keep the colour and follow the
    /// level up to the cap, the rainbows follow the hue at the cap, any other style is steady.
    pub open spec fn frame_report(self, sample: Sample) -> Seq<u8> {
        match self.style {
            ModeStyle::Breathe | ModeStyle::Pulse => range_update(
                self.lamps,
                self.colour,
                if sample.level < self.intensity {
                    sample.level
                } else {
                    self.intensity
                },
            ),
            ModeStyle::RainbowCycle | ModeStyle::RainbowWave => range_update(
                self.lamps,
                sample.hue,
                self.intensity,
            ),
            _ => range_update(self.lamps, self.colour, self.intensity),
        }
    }

    /// The place of the current frame in its cycle.
    pub open spec fn place(self) -> nat {
        self.frame % self.total_frames
    }

    /// The animation one frame later. The count of frames starts over when it is full.
    pub open spec fn next_frame(self) -> EffectTaskView {
        EffectTaskView {
            frame: if self.frame == u32::MAX {
                0
            } else {
                self.frame + 1
            },
            ..self
        }
    }
}

impl EffectTask {
    /// The animation of an effect.
    pub fn new(effect: &AuraEffect, intensity: u8, lamps: u16) -> (task: EffectTask)
        requires
            lamps > 0,
        ensures
            task@ == task_for(*effect, intensity, lamps as nat),
            task@.wf(),
    {
        let period: u32 = EffectTask::speed_to_period_ms(effect.speed);
        let frames: u32 = period / FRAME_MS;
        EffectTask {
            style: effect.mode.style,
            colour: effect.colour1,
            intensity,
            lamps,
            total_frames: if frames < 1 {
                1
            } else {
                frames
            },
            frame: 0,
        }
    }

    /// Milliseconds that one cycle takes.
    pub fn speed_to_period_ms(speed: Speed) -> (period: u32)
        ensures
            period == period_ms(speed),
    {
        match speed {
            Speed::Low => 4000,
            Speed::Med => 2000,
            Speed::High => 800,
        }
    }

    /// The style of the animation.
    pub fn style(&self) -> (style: ModeStyle)
        ensures
            style == self@.style,
    {
        self.style
    }

    /// The cap on the intensity: samples are to be scaled to it.
    pub fn intensity(&self) -> (intensity: u8)
        ensures
            intensity == self@.intensity,
    {
        self.intensity
    }

    /// Where in the cycle the current frame is: its place, and the frames of a cycle.
    pub fn position(&self) -> (position: (u32, u32))
        requires
            self@.wf(),
        ensures
            position.0 == self@.frame % self@.total_frames,
            position.0 == self@.place(),
            position.1 == self@.total_frames,
            position.0 < position.1,
    {
        (self.frame % self.total_frames, self.total_frames)
    }

    /// The range update of the current frame.
    pub fn report(&self, sample: Sample) -> (report: Vec<u8>)
        requires
            self@.wf(),
        ensures
            report@ == self@.frame_report(sample),
    {
        match self.style {
            ModeStyle::Breathe | ModeStyle::Pulse => range_update_report(
                self.lamps,
                self.colour,
                if sample.level < self.intensity {
                    sample.level
                } else {
                    self.intensity
                },
            ),
            ModeStyle::RainbowCycle | ModeStyle::RainbowWave => range_update_report(
                self.lamps,
                sample.hue,
                self.intensity,
            ),
            _ => range_update_report(self.lamps, self.colour, self.intensity),
        }
    }

    /// Goes on to the next frame if the update of this one was sent. False ends the
    /// animation.
    pub fn advance(&mut self, sent: bool) -> (goes_on: bool)
        requires
            old(self)@.wf(),
        ensures
            goes_on == sent,
            final(self)@ == if sent {
                old(self)@.next_frame()
            } else {
                old(self)@
            },
            final(self)@.wf(),
    {
        if !sent {
            return false;
        }
        self.frame = self.frame.wrapping_add(1);
        true
    }
}

/// The state of an animation after a number of frames that were all sent.
pub open spec fn after_frames(task: EffectTaskView, frames: nat) -> EffectTaskView
    decreases frames,
{
    if frames == 0 {
        task
    } else {
        after_frames(task, (frames - 1) as nat).next_frame()
    }
}

/// Every frame of an animation, whatever its samples, is a range update over all lamps that
/// never exceeds the cap on the intensity. Breathing and pulsing keep the colour, the
/// rainbows keep the intensity.
pub proof fn law_every_frame_keeps_the_cap(
    effect: AuraEffect,
    intensity: u8,
    lamps: nat,
    frames: nat,
    sample: Sample,
)
    requires
        0 < lamps <= 0xffff,
    ensures
        ({
            let style = effect.mode.style;
            let report = after_frames(task_for(effect, intensity, lamps), frames).frame_report(
                sample,
            );
            &&& report.len() == RANGE_UPDATE_LEN
            &&& report.subrange(0, 4) == seq![0x45u8, 0x01, 0x00, 0x00]
            &&& report[4] + 256 * report[5] == lamps - 1
            &&& report[9] <= intensity
            &&& style is RainbowCycle || style is RainbowWave ==> report[9] == intensity
            &&& style is Breathe || style is Pulse ==> report.subrange(6, 9) == seq![
                effect.colour1.r,
                effect.colour1.g,
                effect.colour1.b,
            ]
        }),
{
    let task = task_for(effect, intensity, lamps);
    let report = after_frames(task, frames).frame_report(sample);
    lemma_frames_change_the_count_alone(task, frames);
    assert(report.subrange(0, 4) =~= seq![0x45u8, 0x01, 0x00, 0x00]);
    if effect.mode.style is Breathe || effect.mode.style is Pulse {
        assert(report.subrange(6, 9) =~= seq![
            effect.colour1.r,
            effect.colour1.g,
            effect.colour1.b,
        ]);
    }
}

/// Going on changes nothing but the count of frames.
proof fn lemma_frames_change_the_count_alone(task: EffectTaskView, frames: nat)
    ensures
        after_frames(task, frames) == (EffectTaskView {
            frame: after_frames(task, frames).frame,
            ..task
        }),
    decreases frames,
{
    if frames > 0 {
        lemma_frames_change_the_count_alone(task, (frames - 1) as nat);
    }
}

/// As long as the count of frames does not start over, an animation repeats itself: a full
/// cycle later, the same place in the cycle comes round.
pub proof fn law_animation_is_periodic(effect: AuraEffect, intensity: u8, lamps: nat, frames: nat)
    requires
        frames + task_for(effect, intensity, lamps).total_frames <= u32::MAX,
    ensures
        ({
            let task = task_for(effect, intensity, lamps);
            let later = (frames + task.total_frames) as nat;
            after_frames(task, later).frame % task.total_frames == after_frames(task, frames).frame
                % task.total_frames
        }),
{
    let task = task_for(effect, intensity, lamps);
    let later = (frames + task.total_frames) as nat;
    lemma_frames_are_counted(task, frames);
    lemma_frames_are_counted(task, later);
    vstd::arithmetic::div_mod::lemma_mod_add_multiples_vanish(
        frames as int,
        task.total_frames as int,
    );
}

/// A fresh animation counts its frames.
proof fn lemma_frames_are_counted(task: EffectTaskView, frames: nat)
    requires
        task.frame == 0,
        frames <= u32::MAX,
    ensures
        after_frames(task, frames) == (EffectTaskView { frame: frames, ..task }),
    decreases frames,
{
    if frames > 0 {
        lemma_frames_are_counted(task, (frames - 1) as nat);
    }
}

/// The place of the animation that is running, if one is. `T` stands for the running task.
pub struct EffectSlot<T> {
    pub running: Option<T>,
}

impl<T> EffectSlot<T> {
    /// A place where nothing runs.
    pub fn new() -> (slot: EffectSlot<T>)
        ensures
            slot.running is None,
    {
        EffectSlot { running: None }
    }

    /// Hands out the running task, which the host has to abort. Safe where nothing runs.
    pub fn lamparray_stop_effect_task(&mut self) -> (aborted: Option<T>)
        ensures
            aborted == old(self).running,
            final(self).running is None,
    {
        self.running.take()
    }

    /// Remembers the task that was started.
    pub fn started(&mut self, task: T)
        ensures
            final(self).running == Some(task),
    {
        self.running = Some(task);
    }
}


/// The report that claims the lamps, and the one that asks how many there are.
pub proof fn law_claiming_reports()
    ensures
        autonomous_off().len() == 2,
        autonomous_off()[0] == 0x46,
        autonomous_off()[1] == 0,
        attributes_request().len() == 23,
        attributes_request()[0] == 0x41,
        forall|i: int| 1 <= i < 23 ==> attributes_request()[i] == 0,
{
}

/// A number of lamps that is told in two bytes, the low one first, is understood; the other
/// bytes do not matter.
pub proof fn law_lamp_count_is_understood(attributes: Seq<u8>, lamps: nat)
    requires
        attributes.len() == 23,
        lamps <= 0xffff,
        attributes[1] == lamps % 256,
        attributes[2] == lamps / 256,
    ensures
        lamp_count(attributes) == lamps,
{
}

/// The bytes of a range update, for any number of lamps, colour and intensity.
pub proof fn law_range_update_bytes(lamps: nat, colour: Colour, intensity: u8)
    requires
        0 < lamps <= 0xffff,
    ensures
        ({
            let report = range_update(lamps, colour, intensity);
            &&& report.len() == 10
            &&& report[0] == 0x45
            &&& report[1] == 0x01
            &&& report[2] == 0 && report[3] == 0
            &&& report[4] == (lamps - 1) % 256
            &&& report[5] == (lamps - 1) / 256
            &&& report[6] == colour.r
            &&& report[7] == colour.g
            &&& report[8] == colour.b
            &&& report[9] == intensity
        }),
{
}

/// What a frame shows: breathing and pulsing keep the colour of the effect and follow the
/// sampled level, up to the cap; the rainbows follow the sampled hue at the cap; any other
/// style shows the colour at the cap.
pub proof fn law_frames_follow_their_samples(task: EffectTaskView, sample: Sample)
    ensures
        ({
            let report = task.frame_report(sample);
            let colour = seq![task.colour.r, task.colour.g, task.colour.b];
            let hue = seq![sample.hue.r, sample.hue.g, sample.hue.b];
            let fades = task.style == ModeStyle::Breathe || task.style == ModeStyle::Pulse;
            let rainbow = task.style == ModeStyle::RainbowCycle || task.style
                == ModeStyle::RainbowWave;
            &&& fades && sample.level <= task.intensity ==> report[9] == sample.level
            &&& fades && sample.level > task.intensity ==> report[9] == task.intensity
            &&& !fades ==> report[9] == task.intensity
            &&& rainbow ==> report.subrange(6, 9) == hue
            &&& !rainbow ==> report.subrange(6, 9) == colour
        }),
{
    let report = task.frame_report(sample);
    if task.style == ModeStyle::RainbowCycle || task.style == ModeStyle::RainbowWave {
        assert(report.subrange(6, 9) =~= seq![sample.hue.r, sample.hue.g, sample.hue.b]);
    } else {
        assert(report.subrange(6, 9) =~= seq![task.colour.r, task.colour.g, task.colour.b]);
    }
}

/// A brighter sample never shows a darker frame, and within the cap different levels show
/// different frames: an animation that is sampled up and down goes up and down.
pub proof fn law_brighter_samples_show_brighter(task: EffectTaskView, sample: Sample, brighter: Sample)
    requires
        task.style == ModeStyle::Breathe || task.style == ModeStyle::Pulse,
        sample.level <= brighter.level,
    ensures
        task.frame_report(sample)[9] <= task.frame_report(brighter)[9],
        sample.level < brighter.level <= task.intensity ==> task.frame_report(sample)[9]
            < task.frame_report(brighter)[9],
{
}

/// A cycle has as many whole frames of 33 milliseconds as fit in it, and it takes four
/// seconds at low speed, two at medium and eight tenths at high.
pub proof fn law_cycle_lengths(period: u32)
    ensures
        period >= 33 ==> frames_in(period) * 33 <= period < (frames_in(period) + 1) * 33,
        period < 33 ==> frames_in(period) == 1,
        period_ms(Speed::Low) == 4000,
        period_ms(Speed::Med) == 2000,
        period_ms(Speed::High) == 800,
{
}

/// An animation begins at its first frame, with what the effect, the brightness and the device
/// tell, and the length of its cycle depends on the speed alone.
pub proof fn law_animation_is_that_of_the_effect(effect: AuraEffect, intensity: u8, lamps: nat)
    ensures
        ({
            let task = task_for(effect, intensity, lamps);
            &&& task.style == effect.mode.style
            &&& task.colour == effect.colour1
            &&& task.intensity == intensity
            &&& task.lamps == lamps
            &&& task.frame == 0
            &&& effect.speed == Speed::Low ==> task.total_frames == 121
            &&& effect.speed == Speed::Med ==> task.total_frames == 60
            &&& effect.speed == Speed::High ==> task.total_frames == 24
        }),
{
}

/// Each frame that is sent is counted, and nothing else about an animation changes. The count
/// starts over behind the largest number that it has room for.
pub proof fn law_frames_are_counted(
    effect: AuraEffect,
    intensity: u8,
    lamps: nat,
    frames: nat,
    task: EffectTaskView,
)
    ensures
        frames <= 0xffff_ffff ==> after_frames(task_for(effect, intensity, lamps), frames) == (
        EffectTaskView { frame: frames, ..task_for(effect, intensity, lamps) }),
        task.next_frame() == (EffectTaskView { frame: task.next_frame().frame, ..task }),
        task.frame < 0xffff_ffff ==> task.next_frame().frame == task.frame + 1,
        task.frame == 0xffff_ffff ==> task.next_frame().frame == 0,
{
    if frames <= 0xffff_ffff {
        lemma_frames_are_counted(task_for(effect, intensity, lamps), frames);
    }
}


/// The place in the cycle goes up from the first frame to the last one, and then from the
/// first again: behind any number of whole cycles, as many frames on is the same place.
pub proof fn law_places_come_round(
    effect: AuraEffect,
    intensity: u8,
    lamps: nat,
    cycles: nat,
    frames: nat,
)
    requires
        frames < task_for(effect, intensity, lamps).total_frames,
        cycles * task_for(effect, intensity, lamps).total_frames + frames <= 0xffff_ffff,
    ensures
        ({
            let task = task_for(effect, intensity, lamps);
            after_frames(task, (cycles * task.total_frames + frames) as nat).place() == frames
        }),
{
    let task = task_for(effect, intensity, lamps);
    let total = task.total_frames as int;
    let sent = (cycles * task.total_frames + frames) as nat;
    lemma_frames_are_counted(task, sent);
    vstd::arithmetic::div_mod::lemma_fundamental_div_mod_converse_mod(
        sent as int,
        total,
        cycles as int,
        frames as int,
    );
}


/// A frame comes every 33 milliseconds.
pub proof fn law_frames_are_33_ms_apart()
    ensures
        FRAME_MS == 33,
        ATTRIBUTES_LEN == 23,
        RANGE_UPDATE_LEN == 10,
{
}

} // verus!
