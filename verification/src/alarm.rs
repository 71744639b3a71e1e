//! Syscall-facing alarm driver: one alarm capability multiplexed across
//! the alarm requests of many processes.
//!
//! The driver owns one alarm capability — in a full kernel image the
//! virtual alarm handed to it at board init, modeled here by the same
//! countdown-timer state as the hardware leaf — and keeps one
//! [`AlarmData`] record per process in a grant table. Every request
//! re-derives the single nearest deadline across all process records and
//! arms or disarms the owned alarm accordingly.
//!
//! Processes and their subscribed callbacks are referred to by small
//! integer handles. Callback delivery is asynchronous: the firing handler
//! returns the batch of callbacks to enqueue rather than invoking
//! anything, and its second result tells the caller to deliver the firing
//! event again because the freshly armed nearest deadline's window
//! already contains "now".

use vstd::prelude::*;

verus! {

use crate::hardware_alarm::HardwareAlarm;
use crate::return_code::ReturnCode;
use crate::ticks::{spec_within_range, within_range};

/// Armed state of one process's alarm: disarmed, or armed to fire once
/// the counter has travelled `dt` ticks past `reference`. A disabled
/// expiration never contributes to deadline selection.
#[derive(Clone, Copy, Debug, PartialEq, Eq, Structural)]
pub enum Expiration {
    Disabled,
    Enabled(u32, u32),
}

/// Per-process alarm record held in that process's grant slot.
#[derive(Clone, Copy, Debug, PartialEq, Eq, Structural)]
pub struct AlarmData {
    /// The process's current alarm, if armed.
    pub expiration: Expiration,
    /// Handle of the process's subscribed callback, if any.
    pub callback: Option<u32>,
}

/// The record a process starts with: disarmed, no callback.
pub open spec fn spec_default_alarm_data() -> AlarmData {
    AlarmData { expiration: Expiration::Disabled, callback: None }
}

impl Default for AlarmData {
    /// A fresh record: disarmed, with no callback.
    fn default() -> (r: AlarmData)
        ensures
            r == spec_default_alarm_data(),
    {
        AlarmData { expiration: Expiration::Disabled, callback: None }
    }
}

/// Per-process isolated storage: one optional [`AlarmData`] record per
/// process, indexed by process handle. A slot is `None` until the
/// process first touches the driver; entering a slot allocates the
/// default record lazily. A process handle at or past the table's
/// capacity stands for a process whose record cannot be reached (for
/// instance one already destroyed), which the driver reports and never
/// recovers.
pub struct Grant {
    /// One slot per process.
    pub slots: Vec<Option<AlarmData>>,
}

impl Grant {
    /// A table with `capacity` empty slots, so with no record armed.
    pub fn new(capacity: usize) -> (r: Grant)
        ensures
            r.slots@.len() == capacity,
            forall|i: int| 0 <= i < capacity ==> r.slots@[i] is None,
            count_armed(r.slots@) == 0,
    {
        let mut slots: Vec<Option<AlarmData>> = Vec::new();
        let mut i: usize = 0;
        while i < capacity
            invariant
                i <= capacity,
                slots@.len() == i,
                forall|j: int| 0 <= j < i ==> slots@[j] is None,
                count_armed(slots@) == 0,
            decreases capacity - i,
        {
            proof {
                lemma_count_armed_push(slots@, None);
            }
            slots.push(None);
            i = i + 1;
        }
        Grant { slots }
    }
}

/// Whether a grant slot holds an armed record.
pub open spec fn slot_armed(s: Option<AlarmData>) -> bool {
    s matches Some(d) && d.expiration is Enabled
}

/// Number of grant slots holding an armed record.
pub open spec fn count_armed(slots: Seq<Option<AlarmData>>) -> nat
    decreases slots.len(),
{
    if slots.len() == 0 {
        0
    } else {
        count_armed(slots.drop_last()) + if slot_armed(slots.last()) {
            1nat
        } else {
            0nat
        }
    }
}

proof fn lemma_count_armed_push(s: Seq<Option<AlarmData>>, v: Option<AlarmData>)
    ensures
        count_armed(s.push(v)) == count_armed(s) + (if slot_armed(v) {
            1nat
        } else {
            0nat
        }),
{
    assert(s.push(v).drop_last() =~= s);
}

proof fn lemma_count_armed_le_len(s: Seq<Option<AlarmData>>)
    ensures
        count_armed(s) <= s.len(),
    decreases s.len(),
{
    if s.len() > 0 {
        lemma_count_armed_le_len(s.drop_last());
    }
}

proof fn lemma_count_armed_unarmed_lt(s: Seq<Option<AlarmData>>, i: int)
    requires
        0 <= i < s.len(),
        !slot_armed(s[i]),
    ensures
        count_armed(s) < s.len(),
    decreases s.len(),
{
    if i == s.len() - 1 {
        lemma_count_armed_le_len(s.drop_last());
    } else {
        lemma_count_armed_unarmed_lt(s.drop_last(), i);
    }
}

proof fn lemma_count_armed_armed_pos(s: Seq<Option<AlarmData>>, i: int)
    requires
        0 <= i < s.len(),
        slot_armed(s[i]),
    ensures
        count_armed(s) >= 1,
    decreases s.len(),
{
    if i < s.len() - 1 {
        lemma_count_armed_armed_pos(s.drop_last(), i);
    }
}

proof fn lemma_count_armed_update(s: Seq<Option<AlarmData>>, i: int, v: Option<AlarmData>)
    requires
        0 <= i < s.len(),
    ensures
        count_armed(s.update(i, v)) == count_armed(s) - (if slot_armed(s[i]) {
            1int
        } else {
            0int
        }) + (if slot_armed(v) {
            1int
        } else {
            0int
        }),
    decreases s.len(),
{
    let t = s.update(i, v);
    if i == s.len() - 1 {
        assert(t.drop_last() =~= s.drop_last());
    } else {
        lemma_count_armed_update(s.drop_last(), i, v);
        assert(t.drop_last() =~= s.drop_last().update(i, v));
    }
}

/// Earliest alarm among the first `n` grant slots together with its
/// absolute deadline tick, folded in slot order with the incumbent rule:
/// a candidate supersedes the incumbent when the candidate's deadline
/// falls inside the incumbent's window — then it is provably not later —
/// or when `now` lies outside the candidate's own window — then the
/// candidate has already elapsed and must fire immediately, and which of
/// several elapsed alarms is kept is deliberately unspecified, since the
/// order of the resulting process callbacks is arbitrated by the process
/// scheduler, not by this layer.
pub open spec fn spec_earliest_upto(slots: Seq<Option<AlarmData>>, n: int, now: u32) -> (
    Expiration,
    u32,
)
    decreases n,
{
    if n <= 0 {
        (Expiration::Disabled, 0u32)
    } else {
        let inc = spec_earliest_upto(slots, n - 1, now);
        match slots[n - 1] {
            Some(d) => match d.expiration {
                Expiration::Enabled(reference, dt) => {
                    let end = reference.wrapping_add(dt);
                    match inc.0 {
                        Expiration::Disabled => (d.expiration, end),
                        Expiration::Enabled(earliest_reference, _) => {
                            if spec_within_range(end, earliest_reference, inc.1) {
                                (d.expiration, end)
                            } else if !spec_within_range(now, reference, end) {
                                (d.expiration, end)
                            } else {
                                inc
                            }
                        },
                    }
                },
                Expiration::Disabled => inc,
            },
            None => inc,
        }
    }
}

/// Earliest alarm among all grant slots, as selected at counter value
/// `now`.
pub open spec fn spec_earliest(slots: Seq<Option<AlarmData>>, now: u32) -> Expiration {
    spec_earliest_upto(slots, slots.len() as int, now).0
}

/// The owned alarm after re-arming it to `next`: armed for `next`'s
/// deadline, or disarmed when `next` is disabled.
pub open spec fn spec_rearmed(alarm: HardwareAlarm, next: Expiration) -> HardwareAlarm {
    match next {
        Expiration::Disabled => HardwareAlarm { armed: false, ..alarm },
        Expiration::Enabled(reference, dt) => HardwareAlarm { armed: true, reference, dt, ..alarm },
    }
}

/// While any slot is armed, the earliest-alarm fold yields an armed
/// expiration.
pub proof fn lemma_earliest_enabled(slots: Seq<Option<AlarmData>>, n: int, now: u32)
    requires
        0 <= n <= slots.len(),
        exists|i: int| 0 <= i < n && slot_armed(slots[i]),
    ensures
        spec_earliest_upto(slots, n, now).0 is Enabled,
    decreases n,
{
    let i = choose|i: int| 0 <= i < n && slot_armed(slots[i]);
    if i < n - 1 {
        lemma_earliest_enabled(slots, n - 1, now);
    }
}

/// With every slot disarmed, the earliest-alarm fold yields no alarm.
proof fn lemma_earliest_disabled(slots: Seq<Option<AlarmData>>, n: int, now: u32)
    requires
        0 <= n <= slots.len(),
        forall|i: int| 0 <= i < n ==> !slot_armed(slots[i]),
    ensures
        spec_earliest_upto(slots, n, now).0 is Disabled,
    decreases n,
{
    if n > 0 {
        lemma_earliest_disabled(slots, n - 1, now);
    }
}

/// The earliest-alarm fold never invents a deadline: when it yields an
/// armed expiration, that expiration is some armed slot's own, and the
/// tracked end is its deadline tick.
proof fn lemma_earliest_from_slots(slots: Seq<Option<AlarmData>>, n: int, now: u32)
    requires
        0 <= n <= slots.len(),
    ensures
        spec_earliest_upto(slots, n, now).0 matches Expiration::Enabled(r, d) ==> ({
            &&& spec_earliest_upto(slots, n, now).1 == r.wrapping_add(d)
            &&& exists|i: int|
                0 <= i < n && slot_armed(slots[i]) && slots[i]->Some_0.expiration
                    == spec_earliest_upto(slots, n, now).0
        }),
    decreases n,
{
    if n > 0 {
        lemma_earliest_from_slots(slots, n - 1, now);
    }
}

/// A positive armed count names an armed slot.
proof fn lemma_count_armed_pos_exists(s: Seq<Option<AlarmData>>)
    requires
        count_armed(s) > 0,
    ensures
        exists|i: int| 0 <= i < s.len() && slot_armed(s[i]),
    decreases s.len(),
{
    if slot_armed(s.last()) {
        assert(slot_armed(s[s.len() - 1]));
    } else {
        lemma_count_armed_pos_exists(s.drop_last());
        let i = choose|i: int| 0 <= i < s.len() - 1 && slot_armed(s.drop_last()[i]);
        assert(slot_armed(s[i]));
    }
}

/// One callback the firing handler schedules: the subscribed callback of
/// an expired record, to be delivered with the counter value the pass
/// used and the record's deadline tick.
#[derive(Clone, Copy, Debug, PartialEq, Eq, Structural)]
pub struct FiredCallback {
    /// Handle of the process's subscribed callback.
    pub callback: u32,
    /// Counter value the firing pass counted as "now".
    pub now: u32,
    /// The expired record's absolute deadline tick.
    pub expiration: u32,
}

/// A grant slot after the firing scan at counter value `now`: an armed
/// record whose window no longer contains `now` is disarmed, everything
/// else is untouched.
pub open spec fn spec_expire_slot(s: Option<AlarmData>, now: u32) -> Option<AlarmData> {
    match s {
        Some(d) => match d.expiration {
            Expiration::Enabled(reference, ticks) => {
                if !spec_within_range(now, reference, reference.wrapping_add(ticks)) {
                    Some(AlarmData { expiration: Expiration::Disabled, callback: d.callback })
                } else {
                    s
                }
            },
            Expiration::Disabled => s,
        },
        None => s,
    }
}

/// Callbacks scheduled by the firing scan over the first `n` slots, in
/// slot order: one entry for each expired record that has a subscribed
/// callback.
pub open spec fn spec_fired_callbacks(slots: Seq<Option<AlarmData>>, n: int, now: u32) -> Seq<
    FiredCallback,
>
    decreases n,
{
    if n <= 0 {
        Seq::empty()
    } else {
        let rest = spec_fired_callbacks(slots, n - 1, now);
        match slots[n - 1] {
            Some(d) => match d.expiration {
                Expiration::Enabled(reference, ticks) => {
                    if !spec_within_range(now, reference, reference.wrapping_add(ticks)) {
                        match d.callback {
                            Some(cb) => rest.push(
                                FiredCallback {
                                    callback: cb,
                                    now,
                                    expiration: reference.wrapping_add(ticks),
                                },
                            ),
                            None => rest,
                        }
                    } else {
                        rest
                    }
                },
                Expiration::Disabled => rest,
            },
            None => rest,
        }
    }
}

/// Driver state after a request that triggers no deadline recomputation:
/// only the caller's grant slot may have been (lazily) allocated, to
/// `slots`; counters, the owned alarm and the cached nearest deadline
/// stand as they were.
pub open spec fn driver_unreset(pre: AlarmDriver, post: AlarmDriver, slots: Seq<Option<AlarmData>>) -> bool {
    &&& post.app_alarms.slots@ == slots
    &&& post.num_armed == pre.num_armed
    &&& post.alarm == pre.alarm
    &&& post.next_alarm == pre.next_alarm
}

/// Driver state after a request that re-derives the nearest deadline:
/// the grant slots read `slots`, the armed count reads `num_armed`, and
/// the nearest deadline over `slots` has been cached and armed.
pub open spec fn driver_reset(
    pre: AlarmDriver,
    post: AlarmDriver,
    slots: Seq<Option<AlarmData>>,
    num_armed: int,
) -> bool {
    &&& post.app_alarms.slots@ == slots
    &&& post.num_armed == num_armed
    &&& post.next_alarm == spec_earliest(slots, pre.alarm.now)
    &&& post.alarm == spec_rearmed(pre.alarm, spec_earliest(slots, pre.alarm.now))
}

/// The syscall-facing alarm driver.
pub struct AlarmDriver {
    /// The one alarm capability this driver owns and arms.
    pub alarm: HardwareAlarm,
    /// Number of process records currently armed.
    pub num_armed: usize,
    /// Per-process alarm records.
    pub app_alarms: Grant,
    /// Cached copy of the nearest process alarm the owned capability was
    /// last armed for.
    pub next_alarm: Expiration,
}

impl AlarmDriver {
    /// The armed-record count the driver caches always equals the number
    /// of grant slots holding an armed record.
    pub open spec fn wf(self) -> bool {
        self.num_armed == count_armed(self.app_alarms.slots@)
    }

    /// A driver owning `alarm`, with no record armed yet in `grant`.
    pub fn new(alarm: HardwareAlarm, grant: Grant) -> (r: AlarmDriver)
        requires
            count_armed(grant.slots@) == 0,
        ensures
            r.wf(),
            r.alarm == alarm,
            r.num_armed == 0,
            r.app_alarms == grant,
            r.next_alarm == Expiration::Disabled,
    {
        AlarmDriver { alarm, num_armed: 0, app_alarms: grant, next_alarm: Expiration::Disabled }
    }

    /// Iterate all process records, select the earliest armed alarm under
    /// the supersede rule of [`spec_earliest_upto`], cache it, and arm
    /// the owned capability to it — or disarm the capability when no
    /// record is armed.
    pub fn reset_active_alarm(&mut self)
        requires
            old(self).wf(),
        ensures
            final(self).wf(),
            final(self).num_armed == old(self).num_armed,
            final(self).app_alarms == old(self).app_alarms,
            final(self).next_alarm == spec_earliest(old(self).app_alarms.slots@, old(self).alarm.now),
            final(self).alarm == spec_rearmed(
                old(self).alarm,
                spec_earliest(old(self).app_alarms.slots@, old(self).alarm.now),
            ),
            final(self).next_alarm is Enabled <==> count_armed(old(self).app_alarms.slots@) > 0,
            final(self).next_alarm matches Expiration::Enabled(r, d) ==> exists|i: int|
                0 <= i < old(self).app_alarms.slots@.len() && slot_armed(
                    old(self).app_alarms.slots@[i],
                ) && old(self).app_alarms.slots@[i]->Some_0.expiration == final(self).next_alarm,
    {
        let mut earliest_alarm = Expiration::Disabled;
        let mut earliest_end: u32 = 0;
        let now = self.alarm.now();
        let n = self.app_alarms.slots.len();
        let mut i: usize = 0;
        while i < n
            invariant
                i <= n,
                n == self.app_alarms.slots@.len(),
                now == self.alarm.now,
                (earliest_alarm, earliest_end) == spec_earliest_upto(
                    self.app_alarms.slots@,
                    i as int,
                    now,
                ),
            decreases n - i,
        {
            if let Some(alarm_data) = &self.app_alarms.slots[i] {
                if let Expiration::Enabled(reference, dt) = alarm_data.expiration {
                    let end: u32 = reference.wrapping_add(dt);
                    earliest_alarm = match earliest_alarm {
                        Expiration::Disabled => {
                            earliest_end = end;
                            alarm_data.expiration
                        },
                        Expiration::Enabled(earliest_reference, _) => {
                            if within_range(end, earliest_reference, earliest_end) {
                                earliest_end = end;
                                alarm_data.expiration
                            } else if !within_range(now, reference, end) {
                                earliest_end = end;
                                alarm_data.expiration
                            } else {
                                earliest_alarm
                            }
                        },
                    };
                }
            }
            i = i + 1;
        }
        proof {
            let slots = self.app_alarms.slots@;
            if count_armed(slots) > 0 {
                lemma_count_armed_pos_exists(slots);
                lemma_earliest_enabled(slots, slots.len() as int, now);
            } else {
                assert forall|k: int| 0 <= k < slots.len() implies !slot_armed(slots[k]) by {
                    if slot_armed(slots[k]) {
                        lemma_count_armed_armed_pos(slots, k);
                    }
                }
                lemma_earliest_disabled(slots, slots.len() as int, now);
            }
            lemma_earliest_from_slots(slots, slots.len() as int, now);
        }
        self.next_alarm = earliest_alarm;
        match earliest_alarm {
            Expiration::Disabled => {
                self.alarm.disarm();
            },
            Expiration::Enabled(reference, dt) => {
                self.alarm.set_alarm(reference, dt);
            },
        }
    }

    /// Register (or clear) the subscribed callback of `process`,
    /// allocating its record on first touch; the one subscription slot is
    /// number zero, and the number is not inspected. Fails with `ENoMem`,
    /// and changes nothing, exactly when the process's record cannot be
    /// reached.
    pub fn subscribe(
        &mut self,
        _subscribe_num: usize,
        callback: Option<u32>,
        process: usize,
    ) -> (rc: ReturnCode)
        requires
            old(self).wf(),
        ensures
            final(self).wf(),
            process >= old(self).app_alarms.slots@.len() ==> rc == ReturnCode::ENoMem
                && *final(self) == *old(self),
            process < old(self).app_alarms.slots@.len() ==> {
                &&& rc == ReturnCode::Success
                &&& final(self).app_alarms.slots@ == old(self).app_alarms.slots@.update(
                    process as int,
                    Some(
                        AlarmData {
                            expiration: (match old(self).app_alarms.slots@[process as int] {
                                Some(d) => d.expiration,
                                None => Expiration::Disabled,
                            }),
                            callback,
                        },
                    ),
                )
                &&& final(self).num_armed == old(self).num_armed
                &&& final(self).alarm == old(self).alarm
                &&& final(self).next_alarm == old(self).next_alarm
            },
    {
        if process >= self.app_alarms.slots.len() {
            return ReturnCode::ENoMem;
        }
        let expiration = match &self.app_alarms.slots[process] {
            Some(d) => d.expiration,
            None => Expiration::Disabled,
        };
        proof {
            lemma_count_armed_update(
                self.app_alarms.slots@,
                process as int,
                Some(AlarmData { expiration, callback }),
            );
        }
        self.app_alarms.slots[process] = Some(AlarmData { expiration, callback });
        ReturnCode::Success
    }

    /// Arm the record of `process` — already entered, so its slot is
    /// occupied — for the window `[reference, reference + dt)`, counting
    /// it as newly armed when it was disarmed, and report the absolute
    /// deadline tick.
    fn rearm(&mut self, process: usize, reference: u32, dt: u32) -> (rc: ReturnCode)
        requires
            old(self).wf(),
            process < old(self).app_alarms.slots@.len(),
            old(self).app_alarms.slots@[process as int] is Some,
        ensures
            final(self).wf(),
            rc == ReturnCode::SuccessWithValue(reference.wrapping_add(dt)),
            final(self).app_alarms.slots@ == old(self).app_alarms.slots@.update(
                process as int,
                Some(
                    AlarmData {
                        expiration: Expiration::Enabled(reference, dt),
                        callback: old(self).app_alarms.slots@[process as int]->Some_0.callback,
                    },
                ),
            ),
            final(self).num_armed == old(self).num_armed + (if slot_armed(
                old(self).app_alarms.slots@[process as int],
            ) {
                0int
            } else {
                1int
            }),
            final(self).alarm == old(self).alarm,
            final(self).next_alarm == old(self).next_alarm,
    {
        let n = self.app_alarms.slots.len();
        let td = self.app_alarms.slots[process].unwrap();
        if let Expiration::Disabled = td.expiration {
            proof {
                lemma_count_armed_unarmed_lt(self.app_alarms.slots@, process as int);
                assert(count_armed(self.app_alarms.slots@) < n);
            }
            self.num_armed = self.num_armed + 1;
        }
        let new_data = AlarmData {
            expiration: Expiration::Enabled(reference, dt),
            callback: td.callback,
        };
        proof {
            lemma_count_armed_update(self.app_alarms.slots@, process as int, Some(new_data));
        }
        self.app_alarms.slots[process] = Some(new_data);
        ReturnCode::SuccessWithValue(reference.wrapping_add(dt))
    }

    /// Handle a numbered request from `process`, allocating its record on
    /// first touch. The commands:
    ///
    /// | cmd | meaning                         | result                      |
    /// |-----|---------------------------------|-----------------------------|
    /// | 0   | capability probe                | success value 1             |
    /// | 1   | get frequency                   | ticks per second            |
    /// | 2   | capture time                    | current counter value       |
    /// | 3   | stop                            | success, or `EAlready`      |
    /// | 4   | arm for absolute tick `data`    | success value = deadline    |
    /// | 5   | arm `data` ticks from now       | success value = deadline    |
    /// | 6   | arm for `data + data2`, with the caller-supplied reference `data` | success value = deadline |
    ///
    /// Any other number is rejected with `ENoSupport`; a process whose
    /// record cannot be reached gets `ENoMem` and nothing changes. The
    /// nearest deadline across all processes is re-derived, and the owned
    /// alarm re-armed, exactly on a set (4, 5, 6) and on a successful
    /// stop — never on a no-op or an error path.
    pub fn command(&mut self, cmd_type: usize, data: u32, data2: u32, process: usize) -> (rc:
        ReturnCode)
        requires
            old(self).wf(),
        ensures
            final(self).wf(),
            process >= old(self).app_alarms.slots@.len() ==> rc == ReturnCode::ENoMem
                && *final(self) == *old(self),
            process < old(self).app_alarms.slots@.len() ==> ({
                let slots0 = old(self).app_alarms.slots@;
                let entered = match slots0[process as int] {
                    Some(d) => d,
                    None => spec_default_alarm_data(),
                };
                let slots1 = slots0.update(process as int, Some(entered));
                let now = old(self).alarm.now;
                &&& (cmd_type == 0 ==> rc == ReturnCode::SuccessWithValue(1) && driver_unreset(
                    *old(self),
                    *final(self),
                    slots1,
                ))
                &&& (cmd_type == 1 ==> rc == ReturnCode::SuccessWithValue(old(self).alarm.frequency)
                    && driver_unreset(*old(self), *final(self), slots1))
                &&& (cmd_type == 2 ==> rc == ReturnCode::SuccessWithValue(now) && driver_unreset(
                    *old(self),
                    *final(self),
                    slots1,
                ))
                &&& (cmd_type == 3 && entered.expiration is Disabled ==> rc == ReturnCode::EAlready
                    && driver_unreset(*old(self), *final(self), slots1))
                &&& (cmd_type == 3 && entered.expiration is Enabled ==> rc == ReturnCode::Success
                    && driver_reset(
                    *old(self),
                    *final(self),
                    slots0.update(
                        process as int,
                        Some(
                            AlarmData {
                                expiration: Expiration::Disabled,
                                callback: entered.callback,
                            },
                        ),
                    ),
                    old(self).num_armed - 1,
                ))
                &&& (cmd_type == 4 ==> rc == ReturnCode::SuccessWithValue(
                    now.wrapping_add(data.wrapping_sub(now)),
                ) && driver_reset(
                    *old(self),
                    *final(self),
                    slots0.update(
                        process as int,
                        Some(
                            AlarmData {
                                expiration: Expiration::Enabled(now, data.wrapping_sub(now)),
                                callback: entered.callback,
                            },
                        ),
                    ),
                    old(self).num_armed + (if entered.expiration is Enabled {
                        0int
                    } else {
                        1int
                    }),
                ))
                &&& (cmd_type == 5 ==> rc == ReturnCode::SuccessWithValue(now.wrapping_add(data))
                    && driver_reset(
                    *old(self),
                    *final(self),
                    slots0.update(
                        process as int,
                        Some(
                            AlarmData {
                                expiration: Expiration::Enabled(now, data),
                                callback: entered.callback,
                            },
                        ),
                    ),
                    old(self).num_armed + (if entered.expiration is Enabled {
                        0int
                    } else {
                        1int
                    }),
                ))
                &&& (cmd_type == 6 ==> rc == ReturnCode::SuccessWithValue(data.wrapping_add(data2))
                    && driver_reset(
                    *old(self),
                    *final(self),
                    slots0.update(
                        process as int,
                        Some(
                            AlarmData {
                                expiration: Expiration::Enabled(data, data2),
                                callback: entered.callback,
                            },
                        ),
                    ),
                    old(self).num_armed + (if entered.expiration is Enabled {
                        0int
                    } else {
                        1int
                    }),
                ))
                &&& (cmd_type > 6 ==> rc == ReturnCode::ENoSupport && driver_unreset(
                    *old(self),
                    *final(self),
                    slots1,
                ))
            }),
    {
        if process >= self.app_alarms.slots.len() {
            return ReturnCode::ENoMem;
        }
        let ghost entered = match old(self).app_alarms.slots@[process as int] {
            Some(d) => d,
            None => spec_default_alarm_data(),
        };
        // Entering the grant allocates the record lazily on first touch.
        if self.app_alarms.slots[process].is_none() {
            proof {
                lemma_count_armed_update(
                    self.app_alarms.slots@,
                    process as int,
                    Some(spec_default_alarm_data()),
                );
            }
            self.app_alarms.slots[process] = Some(AlarmData::default());
        }
        proof {
            assert(self.app_alarms.slots@ =~= old(self).app_alarms.slots@.update(
                process as int,
                Some(entered),
            ));
        }
        let now = self.alarm.now();
        let (rc, reset) = match cmd_type {
            0 => (ReturnCode::SuccessWithValue(1), false),
            1 => (ReturnCode::SuccessWithValue(self.alarm.frequency()), false),
            2 => (ReturnCode::SuccessWithValue(now), false),
            3 => {
                let td = self.app_alarms.slots[process].unwrap();
                match td.expiration {
                    Expiration::Disabled => (ReturnCode::EAlready, false),
                    Expiration::Enabled(_, _) => {
                        proof {
                            lemma_count_armed_armed_pos(self.app_alarms.slots@, process as int);
                            lemma_count_armed_update(
                                self.app_alarms.slots@,
                                process as int,
                                Some(
                                    AlarmData {
                                        expiration: Expiration::Disabled,
                                        callback: td.callback,
                                    },
                                ),
                            );
                        }
                        self.app_alarms.slots[process] = Some(
                            AlarmData { expiration: Expiration::Disabled, callback: td.callback },
                        );
                        self.num_armed = self.num_armed - 1;
                        (ReturnCode::Success, true)
                    },
                }
            },
            4 => {
                let reference = now;
                let dt = data.wrapping_sub(reference);
                let rc = self.rearm(process, reference, dt);
                proof {
                    assert(self.app_alarms.slots@ =~= old(self).app_alarms.slots@.update(
                        process as int,
                        Some(
                            AlarmData {
                                expiration: Expiration::Enabled(reference, dt),
                                callback: entered.callback,
                            },
                        ),
                    ));
                }
                (rc, true)
            },
            5 => {
                let rc = self.rearm(process, now, data);
                proof {
                    assert(self.app_alarms.slots@ =~= old(self).app_alarms.slots@.update(
                        process as int,
                        Some(
                            AlarmData {
                                expiration: Expiration::Enabled(now, data),
                                callback: entered.callback,
                            },
                        ),
                    ));
                }
                (rc, true)
            },
            6 => {
                let rc = self.rearm(process, data, data2);
                proof {
                    assert(self.app_alarms.slots@ =~= old(self).app_alarms.slots@.update(
                        process as int,
                        Some(
                            AlarmData {
                                expiration: Expiration::Enabled(data, data2),
                                callback: entered.callback,
                            },
                        ),
                    ));
                }
                (rc, true)
            },
            _ => (ReturnCode::ENoSupport, false),
        };
        if reset {
            self.reset_active_alarm();
        }
        rc
    }

    /// Firing handler for the owned alarm capability: scan all process
    /// records, disarm every record whose window no longer contains the
    /// counter, and collect the callbacks to enqueue for their processes,
    /// in slot order. Afterwards, disarm the owned capability when no
    /// record remains armed; otherwise re-derive and arm the nearest
    /// deadline. The second result asks the caller to deliver the firing
    /// event once more, which it does exactly when the freshly armed
    /// nearest deadline's window already contains the counter value.
    pub fn alarm(&mut self) -> (r: (Vec<FiredCallback>, bool))
        requires
            old(self).wf(),
        ensures
            final(self).wf(),
            r.0@ == spec_fired_callbacks(
                old(self).app_alarms.slots@,
                old(self).app_alarms.slots@.len() as int,
                old(self).alarm.now,
            ),
            final(self).app_alarms.slots@.len() == old(self).app_alarms.slots@.len(),
            forall|p: int|
                0 <= p < old(self).app_alarms.slots@.len() ==> final(self).app_alarms.slots@[p]
                    == spec_expire_slot(old(self).app_alarms.slots@[p], old(self).alarm.now),
            final(self).alarm.now == old(self).alarm.now,
            final(self).alarm.frequency == old(self).alarm.frequency,
            count_armed(final(self).app_alarms.slots@) == 0 ==> final(self).alarm == (HardwareAlarm {
                armed: false,
                ..old(self).alarm
            }) && final(self).next_alarm == old(self).next_alarm && r.1 == false,
            count_armed(final(self).app_alarms.slots@) > 0 ==> ({
                let next = spec_earliest(final(self).app_alarms.slots@, old(self).alarm.now);
                &&& next is Enabled
                &&& final(self).next_alarm == next
                &&& final(self).alarm == spec_rearmed(old(self).alarm, next)
                &&& r.1 == (next matches Expiration::Enabled(reference, dt)
                    && spec_within_range(
                    old(self).alarm.now,
                    reference,
                    reference.wrapping_add(dt),
                ))
            }),
    {
        let now = self.alarm.now();
        let n = self.app_alarms.slots.len();
        let mut scheduled: Vec<FiredCallback> = Vec::new();
        let mut i: usize = 0;
        while i < n
            invariant
                i <= n,
                n == self.app_alarms.slots@.len(),
                self.alarm == old(self).alarm,
                now == old(self).alarm.now,
                self.next_alarm == old(self).next_alarm,
                self.num_armed == count_armed(self.app_alarms.slots@),
                scheduled@ == spec_fired_callbacks(old(self).app_alarms.slots@, i as int, now),
                forall|p: int|
                    0 <= p < i ==> self.app_alarms.slots@[p] == spec_expire_slot(
                        old(self).app_alarms.slots@[p],
                        now,
                    ),
                forall|p: int| i <= p < n ==> self.app_alarms.slots@[p] == old(
                    self,
                ).app_alarms.slots@[p],
            decreases n - i,
        {
            let slot = self.app_alarms.slots[i];
            if let Some(alarm_data) = slot {
                if let Expiration::Enabled(reference, ticks) = alarm_data.expiration {
                    // The counter has left `[reference, reference + ticks)`:
                    // this record's alarm has passed.
                    if !within_range(now, reference, reference.wrapping_add(ticks)) {
                        proof {
                            lemma_count_armed_armed_pos(self.app_alarms.slots@, i as int);
                            lemma_count_armed_update(
                                self.app_alarms.slots@,
                                i as int,
                                Some(
                                    AlarmData {
                                        expiration: Expiration::Disabled,
                                        callback: alarm_data.callback,
                                    },
                                ),
                            );
                        }
                        self.app_alarms.slots[i] = Some(
                            AlarmData {
                                expiration: Expiration::Disabled,
                                callback: alarm_data.callback,
                            },
                        );
                        self.num_armed = self.num_armed - 1;
                        if let Some(cb) = alarm_data.callback {
                            scheduled.push(
                                FiredCallback {
                                    callback: cb,
                                    now,
                                    expiration: reference.wrapping_add(ticks),
                                },
                            );
                        }
                    }
                }
            }
            i = i + 1;
        }
        // With armed records left, re-arm the owned alarm to the nearest
        // remaining deadline; otherwise disable it.
        if self.num_armed == 0 {
            self.alarm.disarm();
            (scheduled, false)
        } else {
            proof {
                lemma_count_armed_pos_exists(self.app_alarms.slots@);
                lemma_earliest_enabled(
                    self.app_alarms.slots@,
                    self.app_alarms.slots@.len() as int,
                    self.alarm.now,
                );
            }
            self.reset_active_alarm();
            match self.next_alarm {
                Expiration::Enabled(reference, dt) => {
                    let new_now = self.alarm.now();
                    let refire = within_range(new_now, reference, reference.wrapping_add(dt));
                    (scheduled, refire)
                },
                Expiration::Disabled => {
                    self.alarm.disarm();
                    (scheduled, false)
                },
            }
        }
    }
}

} // verus!
