//! Following the system's default audio devices while a recording runs.

use vstd::prelude::*;
#[allow(unused_imports)]
use vstd::string::StringExecFns;

use crate::text;
use crate::text::same;

verus! {

/// How long a device must have been the default before the streams are rebuilt for it.
pub const SETTLE_MILLIS: u64 = 2000;

/// Whether it is time to look at the devices.
#[derive(Clone, Copy, Debug, PartialEq, Eq, Structural)]
pub enum FollowerGate {
    /// Not now.
    Skip,
    /// Yes; where a check was asked for, that is hereby done.
    Look { clear_pending: bool },
}

/// Whether it is time to look at the devices: while recording, when the streams are not being
/// rebuilt, and during a pause only where a check was asked for.
pub fn follower_gate(recording: bool, rebuilding: bool, paused: bool, pending: bool) -> (r:
    FollowerGate)
    ensures
        r == (if recording && !rebuilding && (!paused || pending) {
            FollowerGate::Look { clear_pending: pending }
        } else {
            FollowerGate::Skip
        }),
{
    if !recording || rebuilding {
        return FollowerGate::Skip;
    }
    if paused && !pending {
        return FollowerGate::Skip;
    }
    FollowerGate::Look { clear_pending: pending }
}

/// Whether two names that may be missing are the same.
pub fn same_name(a: &Option<String>, b: &Option<String>) -> (r: bool)
    ensures
        r == (text::opt_text(*a) == text::opt_text(*b)),
{
    match (a, b) {
        (Some(x), Some(y)) => same(x.as_str(), y.as_str()),
        (None, None) => true,
        _ => false,
    }
}

/// A copy of a name that may be missing.
pub fn copy_name(a: &Option<String>) -> (r: Option<String>)
    ensures
        text::opt_text(r) == text::opt_text(*a),
{
    match a {
        Some(x) => Some(x.clone()),
        None => None,
    }
}

/// What was last seen of one device: its name, and since when it has been another than the one
/// in use.
#[derive(Debug)]
pub struct DeviceWatch {
    pub last: Option<String>,
    pub changed_at: Option<u64>,
}

/// What was last seen of one device, as a mathematical value.
pub struct WatchView {
    pub last: Option<Seq<char>>,
    pub changed_at: Option<u64>,
}

impl View for DeviceWatch {
    type V = WatchView;

    open spec fn view(&self) -> WatchView {
        WatchView { last: text::opt_text(self.last), changed_at: self.changed_at }
    }
}

/// Whether a time lies long enough back.
pub open spec fn has_settled(changed_at: Option<u64>, now: u64) -> bool {
    match changed_at {
        Some(t) => now - t >= SETTLE_MILLIS,
        None => false,
    }
}

/// Whether a device counts as changed: it is another than the one in use, the same as at the
/// last look, and has been so for long enough.
pub open spec fn counts_as_changed(
    w: WatchView,
    in_use: Option<Seq<char>>,
    current: Option<Seq<char>>,
    now: u64,
    paused: bool,
) -> bool {
    !paused && in_use != current && w.last == current && has_settled(w.changed_at, now)
}

/// What is known of a device after a look.
pub open spec fn after_look(
    w: WatchView,
    in_use: Option<Seq<char>>,
    current: Option<Seq<char>>,
    now: u64,
    paused: bool,
) -> WatchView {
    WatchView {
        last: current,
        changed_at: if paused {
            w.changed_at
        } else if in_use == current {
            None
        } else if w.last != current {
            Some(now)
        } else {
            w.changed_at
        },
    }
}

impl DeviceWatch {
    /// Nothing seen yet.
    pub fn new() -> (r: Self)
        ensures
            r@ == (WatchView { last: None, changed_at: None }),
    {
        DeviceWatch { last: None, changed_at: None }
    }

    /// Looks at a device; says whether it counts as changed.
    pub fn look(
        &mut self,
        in_use: &Option<String>,
        current: &Option<String>,
        now: u64,
        paused: bool,
    ) -> (r: bool)
        ensures
            r == counts_as_changed(
                old(self)@,
                text::opt_text(*in_use),
                text::opt_text(*current),
                now,
                paused,
            ),
            final(self)@ == after_look(
                old(self)@,
                text::opt_text(*in_use),
                text::opt_text(*current),
                now,
                paused,
            ),
    {
        let mut changed: bool = false;
        if !paused {
            if !same_name(in_use, current) {
                let steady: bool = same_name(&self.last, current);
                let settled: bool = match self.changed_at {
                    Some(t) => now >= t && now - t >= SETTLE_MILLIS,
                    None => false,
                };
                if steady && settled {
                    changed = true;
                } else if !steady {
                    self.changed_at = Some(now);
                }
            } else {
                self.changed_at = None;
            }
        }
        self.last = copy_name(current);
        changed
    }
}

/// What is seen at a look.
#[derive(Debug)]
pub struct DeviceReading {
    /// The time, in milliseconds of a clock that never goes back.
    pub now: u64,
    pub paused: bool,
    /// Whether a check was asked for.
    pub pending: bool,
    /// The names of the default devices that the streams were last built for.
    pub mic_in_use: Option<String>,
    pub system_in_use: Option<String>,
    /// The names of the system's default devices.
    pub default_mic: Option<String>,
    pub default_system: Option<String>,
    /// Whether the streams have failed.
    pub mic_failed: bool,
    pub system_failed: bool,
    /// Whether the recording is waiting for a microphone.
    pub waiting: bool,
}

/// What is seen at a look, as a mathematical value.
pub struct ReadingView {
    pub now: u64,
    pub paused: bool,
    pub pending: bool,
    pub mic_in_use: Option<Seq<char>>,
    pub system_in_use: Option<Seq<char>>,
    pub default_mic: Option<Seq<char>>,
    pub default_system: Option<Seq<char>>,
    pub mic_failed: bool,
    pub system_failed: bool,
    pub waiting: bool,
}

impl View for DeviceReading {
    type V = ReadingView;

    open spec fn view(&self) -> ReadingView {
        ReadingView {
            now: self.now,
            paused: self.paused,
            pending: self.pending,
            mic_in_use: text::opt_text(self.mic_in_use),
            system_in_use: text::opt_text(self.system_in_use),
            default_mic: text::opt_text(self.default_mic),
            default_system: text::opt_text(self.default_system),
            mic_failed: self.mic_failed,
            system_failed: self.system_failed,
            waiting: self.waiting,
        }
    }
}

/// What is to be done after a look.
#[derive(Clone, Copy, Debug, PartialEq, Eq, Structural)]
pub enum FollowerAction {
    /// Nothing.
    Nothing,
    /// The microphone is gone: rebuild the streams without it and wait for one.
    WaitForMicrophone,
    /// A microphone is back: stop waiting and rebuild the streams.
    ResumeRecording,
    /// Rebuild the streams with the current defaults.
    Rebuild,
}

/// Which of the two devices are followed, and what was last seen of them.
#[derive(Debug)]
pub struct Follower {
    pub follow_mic: bool,
    pub follow_system: bool,
    pub mic: DeviceWatch,
    pub system: DeviceWatch,
}

/// A follower as a mathematical value.
pub struct FollowerView {
    pub follow_mic: bool,
    pub follow_system: bool,
    pub mic: WatchView,
    pub system: WatchView,
}

impl View for Follower {
    type V = FollowerView;

    open spec fn view(&self) -> FollowerView {
        FollowerView {
            follow_mic: self.follow_mic,
            follow_system: self.follow_system,
            mic: self.mic@,
            system: self.system@,
        }
    }
}

/// The microphone that should be in use: the default where it is followed, else the one in use.
pub open spec fn wanted_mic(f: FollowerView, reading: ReadingView) -> Option<Seq<char>> {
    if f.follow_mic {
        reading.default_mic
    } else {
        reading.mic_in_use
    }
}

/// The system device that should be in use.
pub open spec fn wanted_system(f: FollowerView, reading: ReadingView) -> Option<Seq<char>> {
    if f.follow_system {
        reading.default_system
    } else {
        reading.system_in_use
    }
}

/// Whether something has to be done: a followed stream has failed, a followed device counts as
/// changed, or a check was asked for and finds other devices.
pub open spec fn needs_rebuild(f: FollowerView, reading: ReadingView) -> bool {
    let mic = wanted_mic(f, reading);
    let system = wanted_system(f, reading);
    ||| f.follow_mic && reading.mic_failed
    ||| f.follow_system && reading.system_failed
    ||| counts_as_changed(f.mic, reading.mic_in_use, mic, reading.now, reading.paused)
    ||| counts_as_changed(f.system, reading.system_in_use, system, reading.now, reading.paused)
    ||| reading.pending && (reading.mic_in_use != mic || reading.system_in_use != system)
}

/// What is to be done after a look.
pub open spec fn follower_action(f: FollowerView, reading: ReadingView) -> FollowerAction {
    let mic = wanted_mic(f, reading);
    if !needs_rebuild(f, reading) {
        FollowerAction::Nothing
    } else if f.follow_mic && mic is None && !reading.waiting {
        FollowerAction::WaitForMicrophone
    } else if reading.waiting {
        if mic is Some {
            FollowerAction::ResumeRecording
        } else {
            FollowerAction::Nothing
        }
    } else {
        FollowerAction::Rebuild
    }
}

/// The follower after a look.
pub open spec fn after_reading(f: FollowerView, reading: ReadingView) -> FollowerView {
    FollowerView {
        mic: after_look(
            f.mic,
            reading.mic_in_use,
            wanted_mic(f, reading),
            reading.now,
            reading.paused,
        ),
        system: after_look(
            f.system,
            reading.system_in_use,
            wanted_system(f, reading),
            reading.now,
            reading.paused,
        ),
        ..f
    }
}

impl Follower {
    /// A follower that has seen nothing yet.
    pub fn new(follow_mic: bool, follow_system: bool) -> (r: Self)
        ensures
            r@ == (FollowerView {
                follow_mic,
                follow_system,
                mic: WatchView { last: None, changed_at: None },
                system: WatchView { last: None, changed_at: None },
            }),
    {
        Follower { follow_mic, follow_system, mic: DeviceWatch::new(), system: DeviceWatch::new() }
    }

    /// Takes in a look at the devices and says what is to be done.
    pub fn step(&mut self, reading: &DeviceReading) -> (r: FollowerAction)
        ensures
            r == follower_action(old(self)@, reading@),
            final(self)@ == after_reading(old(self)@, reading@),
    {
        let mic: Option<String> = if self.follow_mic {
            copy_name(&reading.default_mic)
        } else {
            copy_name(&reading.mic_in_use)
        };
        let system: Option<String> = if self.follow_system {
            copy_name(&reading.default_system)
        } else {
            copy_name(&reading.system_in_use)
        };
        let mic_changed: bool = self.mic.look(
            &reading.mic_in_use,
            &mic,
            reading.now,
            reading.paused,
        );
        let system_changed: bool = self.system.look(
            &reading.system_in_use,
            &system,
            reading.now,
            reading.paused,
        );
        let differs: bool = !same_name(&reading.mic_in_use, &mic) || !same_name(
            &reading.system_in_use,
            &system,
        );
        let needed: bool = (self.follow_mic && reading.mic_failed) || (self.follow_system
            && reading.system_failed) || mic_changed || system_changed || (reading.pending
            && differs);
        if !needed {
            return FollowerAction::Nothing;
        }
        if self.follow_mic && mic.is_none() && !reading.waiting {
            return FollowerAction::WaitForMicrophone;
        }
        if reading.waiting {
            if mic.is_some() {
                return FollowerAction::ResumeRecording;
            }
            return FollowerAction::Nothing;
        }
        FollowerAction::Rebuild
    }
}

/// What is told once the streams have been rebuilt.
#[derive(Clone, Copy, Debug, PartialEq, Eq, Structural)]
pub enum FollowerNotice {
    /// Nothing.
    Nothing,
    /// That the recording waits for a microphone.
    Waiting,
    /// That the devices have changed; the level meters start anew.
    DevicesChanged,
}

/// What is told once the streams have been rebuilt, or could not be.
pub fn after_rebuild(action: FollowerAction, rebuilt: bool) -> (r: FollowerNotice)
    ensures
        r == (match action {
            FollowerAction::Nothing => FollowerNotice::Nothing,
            FollowerAction::WaitForMicrophone => if rebuilt {
                FollowerNotice::Waiting
            } else {
                FollowerNotice::Nothing
            },
            FollowerAction::ResumeRecording => FollowerNotice::DevicesChanged,
            FollowerAction::Rebuild => if rebuilt {
                FollowerNotice::DevicesChanged
            } else {
                FollowerNotice::Nothing
            },
        }),
{
    match action {
        FollowerAction::Nothing => FollowerNotice::Nothing,
        FollowerAction::WaitForMicrophone => {
            if rebuilt {
                FollowerNotice::Waiting
            } else {
                FollowerNotice::Nothing
            }
        },
        FollowerAction::ResumeRecording => FollowerNotice::DevicesChanged,
        FollowerAction::Rebuild => {
            if rebuilt {
                FollowerNotice::DevicesChanged
            } else {
                FollowerNotice::Nothing
            }
        },
    }
}

/// Devices that the user has chosen are left alone, whatever happens to the defaults.
pub proof fn chosen_devices_are_left_alone(f: FollowerView, reading: ReadingView)
    requires
        !f.follow_mic,
        !f.follow_system,
    ensures
        follower_action(f, reading) == FollowerAction::Nothing,
{
}

/// While the devices in use are the wanted ones and no followed stream has failed, nothing is
/// done.
pub proof fn right_devices_are_left_alone(f: FollowerView, reading: ReadingView)
    requires
        reading.mic_in_use == wanted_mic(f, reading),
        reading.system_in_use == wanted_system(f, reading),
        !(f.follow_mic && reading.mic_failed),
        !(f.follow_system && reading.system_failed),
    ensures
        follower_action(f, reading) == FollowerAction::Nothing,
{
}

/// One look at one device while recording: the name in use, the current one and the time.
pub struct Look {
    pub in_use: Option<Seq<char>>,
    pub current: Option<Seq<char>>,
    pub now: u64,
}

/// What is known of a device after a run of looks without a pause.
pub open spec fn after_looks(looks: Seq<Look>) -> WatchView
    decreases looks.len(),
{
    if looks.len() == 0 {
        WatchView { last: None, changed_at: None }
    } else {
        let l = looks.last();
        after_look(after_looks(looks.drop_last()), l.in_use, l.current, l.now, false)
    }
}

/// Whether a device has been the same one, and another than the one in use, at every look from
/// one to the last.
pub open spec fn steady_since(looks: Seq<Look>, from: int) -> bool {
    forall|k: int|
        from <= k < looks.len() ==> (#[trigger] looks[k]).current == looks.last().current
            && looks[k].in_use != looks[k].current
}

proof fn changes_date_from_a_look(looks: Seq<Look>)
    ensures
        after_looks(looks).changed_at matches Some(t) ==> exists|from: int|
            0 <= from < looks.len() && #[trigger] looks[from].now == t && steady_since(looks, from),
        looks.len() > 0 ==> after_looks(looks).last == looks.last().current,
    decreases looks.len(),
{
    if looks.len() > 0 {
        let shorter = looks.drop_last();
        changes_date_from_a_look(shorter);
        let before = after_looks(shorter);
        let l = looks.last();
        if l.in_use != l.current {
            if before.last != l.current {
                let from: int = looks.len() - 1;
                assert(looks[from].now == l.now);
                assert(steady_since(looks, from));
            } else {
                match before.changed_at {
                    Some(t) => {
                        let from = choose|from: int|
                            0 <= from < shorter.len() && #[trigger] shorter[from].now == t
                                && steady_since(shorter, from);
                        assert(looks[from].now == t);
                        assert forall|k: int| from <= k < looks.len() implies (
                        #[trigger] looks[k]).current == l.current && looks[k].in_use
                            != looks[k].current by {
                            if k < shorter.len() {
                                assert(shorter[k] == looks[k]);
                            }
                        }
                        assert(steady_since(looks, from));
                    },
                    None => {},
                }
            }
        }
    }
}

/// A device must have been steady for a while before the streams are rebuilt for it: where it
/// counts as changed, it was the same one, and another than the one in use, at every look since
/// one that lies at least that long back.
pub proof fn devices_settle_first(looks: Seq<Look>)
    requires
        looks.len() > 0,
        counts_as_changed(
            after_looks(looks.drop_last()),
            looks.last().in_use,
            looks.last().current,
            looks.last().now,
            false,
        ),
    ensures
        exists|from: int|
            0 <= from < looks.len() && looks.last().now - (#[trigger] looks[from]).now
                >= SETTLE_MILLIS && steady_since(looks, from),
{
    let shorter = looks.drop_last();
    changes_date_from_a_look(shorter);
    let before = after_looks(shorter);
    let t = before.changed_at->0;
    let l = looks.last();
    let from = choose|from: int|
        0 <= from < shorter.len() && #[trigger] shorter[from].now == t && steady_since(
            shorter,
            from,
        );
    assert(looks[from].now == t);
    assert forall|k: int| from <= k < looks.len() implies (#[trigger] looks[k]).current == l.current
        && looks[k].in_use != looks[k].current by {
        if k < shorter.len() {
            assert(shorter[k] == looks[k]);
        }
    }
    assert(steady_since(looks, from));
}

proof fn steady_changes_keep_their_date(looks: Seq<Look>, from: int)
    requires
        0 <= from < looks.len(),
        after_looks(looks.take(from)).last != looks[from].current,
        steady_since(looks, from),
    ensures
        after_looks(looks).changed_at == Some(looks[from].now),
        after_looks(looks).last == looks.last().current,
    decreases looks.len(),
{
    let shorter = looks.drop_last();
    assert(looks[from].current == looks.last().current);
    if from == looks.len() - 1 {
        assert(shorter =~= looks.take(from));
    } else {
        assert(shorter.take(from) =~= looks.take(from));
        assert forall|k: int| from <= k < shorter.len() implies (#[trigger] shorter[k]).current
            == shorter.last().current && shorter[k].in_use != shorter[k].current by {
            assert(shorter[k] == looks[k]);
            assert(shorter.last() == looks[looks.len() - 2]);
        }
        steady_changes_keep_their_date(shorter, from);
        assert(shorter.last() == looks[looks.len() - 2]);
        assert(looks.last() == looks[looks.len() - 1]);
    }
}

/// A change is noticed: where at one look a device has turned into another than the one in use,
/// and has stayed so ever since, it counts as changed at the first look that lies long enough
/// after that one.
pub proof fn steady_changes_are_noticed(looks: Seq<Look>, from: int, next: Look)
    requires
        0 <= from < looks.len(),
        after_looks(looks.take(from)).last != looks[from].current,
        steady_since(looks, from),
        next.current == looks.last().current,
        next.in_use != next.current,
        next.now - looks[from].now >= SETTLE_MILLIS,
    ensures
        counts_as_changed(after_looks(looks), next.in_use, next.current, next.now, false),
{
    steady_changes_keep_their_date(looks, from);
}

/// A default device that is followed is due when it has been the same for two seconds, is another
/// than the one in use, and the recording is not paused.
pub open spec fn is_due(
    followed: bool,
    w: WatchView,
    in_use: Option<Seq<char>>,
    default: Option<Seq<char>>,
    reading: ReadingView,
) -> bool {
    followed && !reading.paused && default != in_use && default == w.last && w.changed_at is Some
        && w.changed_at->0 + 2000 <= reading.now
}

/// The streams are rebuilt where a followed device is due or its stream has failed, or where a
/// check that was asked for finds that one has changed; unless the microphone is missing, which is
/// waited for, and while it is waited for only its return counts. Otherwise nothing is done.
pub proof fn followed_devices_are_acted_on(f: FollowerView, reading: ReadingView)
    ensures
        ({
            let action = follower_action(f, reading);
            let mic_differs = f.follow_mic && reading.default_mic != reading.mic_in_use;
            let system_differs = f.follow_system && reading.default_system != reading.system_in_use;
            let due = (f.follow_mic && reading.mic_failed) || (f.follow_system
                && reading.system_failed) || is_due(
                f.follow_mic,
                f.mic,
                reading.mic_in_use,
                reading.default_mic,
                reading,
            ) || is_due(
                f.follow_system,
                f.system,
                reading.system_in_use,
                reading.default_system,
                reading,
            ) || (reading.pending && (mic_differs || system_differs));
            let mic_there = if f.follow_mic {
                reading.default_mic is Some
            } else {
                reading.mic_in_use is Some
            };
            &&& !due ==> action == FollowerAction::Nothing
            &&& due && reading.waiting && mic_there ==> action == FollowerAction::ResumeRecording
            &&& due && reading.waiting && !mic_there ==> action == FollowerAction::Nothing
            &&& due && !reading.waiting && f.follow_mic && reading.default_mic is None ==> action
                == FollowerAction::WaitForMicrophone
            &&& due && !reading.waiting && !(f.follow_mic && reading.default_mic is None) ==> action
                == FollowerAction::Rebuild
        }),
{
}

/// A look keeps what was seen: the name of each device, and the time at which it was first seen to
/// be another than the one in use. That time is forgotten once the one in use is the right one,
/// and a pause leaves it as it is. What is not followed is always the right one.
pub proof fn looks_are_kept(f: FollowerView, reading: ReadingView)
    ensures
        ({
            let after = after_reading(f, reading);
            let kept = |
                before: WatchView,
                now: WatchView,
                in_use: Option<Seq<char>>,
                seen: Option<Seq<char>>,
            |
                {
                    &&& now.last == seen
                    &&& reading.paused ==> now.changed_at == before.changed_at
                    &&& !reading.paused && seen == in_use ==> now.changed_at is None
                    &&& !reading.paused && seen != in_use && seen == before.last ==> now.changed_at
                        == before.changed_at
                    &&& !reading.paused && seen != in_use && seen != before.last ==> now.changed_at
                        == Some(reading.now)
                };
            &&& after.follow_mic == f.follow_mic && after.follow_system == f.follow_system
            &&& f.follow_mic ==> kept(f.mic, after.mic, reading.mic_in_use, reading.default_mic)
            &&& !f.follow_mic ==> kept(f.mic, after.mic, reading.mic_in_use, reading.mic_in_use)
            &&& f.follow_system ==> kept(
                f.system,
                after.system,
                reading.system_in_use,
                reading.default_system,
            )
            &&& !f.follow_system ==> kept(
                f.system,
                after.system,
                reading.system_in_use,
                reading.system_in_use,
            )
        }),
{
}

/// One device at a look: it counts as changed where it differs from the one in use, is the one
/// seen last, and has been so for two seconds.
pub proof fn changes_count_after_two_seconds(
    w: WatchView,
    in_use: Option<Seq<char>>,
    current: Option<Seq<char>>,
    now: u64,
)
    ensures
        !counts_as_changed(w, in_use, current, now, true),
        counts_as_changed(w, in_use, current, now, false) <==> in_use != current && w.last
            == current && w.changed_at is Some && w.changed_at->0 + 2000 <= now,
{
}

} // verus!
