//! Virtualization of one hardware alarm over many alarm clients.
//!
//! A [`MuxAlarm`] owns the single [`HardwareAlarm`] and an arena of
//! [`VirtualMuxAlarm`] nodes, one per client; a node is addressed by the
//! handle returned when its client registers. Each node records a
//! deadline as a `(reference, dt)` pair — "fire once the counter has
//! travelled `dt` ticks past `reference`" — and the mux keeps the
//! hardware armed for the soonest deadline among the armed nodes.
//!
//! Firing is a two-phase pass, because a client notified of its alarm may
//! immediately re-arm this or another node. [`MuxAlarm::begin_firing`]
//! marks the pass, clears every elapsed node and hands back their handles
//! so the caller can notify the clients; while the pass is open,
//! re-arming writes no hardware register. [`MuxAlarm::finish_firing`]
//! closes the pass and re-arms the hardware for the minimum remaining
//! deadline, which by then includes everything the callbacks set.

use vstd::prelude::*;

verus! {

use crate::hardware_alarm::HardwareAlarm;
use crate::return_code::ReturnCode;
use crate::ticks::{spec_within_range, tick_distance, within_range};

/// One virtual alarm: a node of the mux's arena. Clients are referred
/// to by small integer handles, chosen by the caller, in place of the
/// static references a kernel image would hold.
#[derive(Clone, Copy, Debug)]
pub struct VirtualMuxAlarm {
    /// Counter value this alarm's deadline is measured from.
    pub reference: u32,
    /// Distance of the deadline from `reference`.
    pub dt: u32,
    /// Whether this alarm should fire when its deadline elapses.
    pub armed: bool,
    /// The single registered notification target, if any.
    pub client: Option<u32>,
}

impl VirtualMuxAlarm {
    /// Absolute tick at which this node is due: `reference + dt`.
    pub open spec fn spec_deadline(self) -> u32 {
        self.reference.wrapping_add(self.dt)
    }

    /// A fresh node in the disabled zero state, not yet linked into any
    /// mux and with no client.
    pub fn new() -> (r: VirtualMuxAlarm)
        ensures
            r == (VirtualMuxAlarm { reference: 0u32, dt: 0u32, armed: false, client: None::<u32> }),
    {
        VirtualMuxAlarm { reference: 0, dt: 0, armed: false, client: None }
    }
}

/// A node has conceptually elapsed at `now` when it is armed and `now`
/// has left its window `[reference, reference + dt)`.
pub open spec fn node_elapsed(node: VirtualMuxAlarm, now: u32) -> bool {
    node.armed && !spec_within_range(now, node.reference, node.spec_deadline())
}

/// Number of armed nodes in `alarms`.
pub open spec fn armed_count(alarms: Seq<VirtualMuxAlarm>) -> nat
    decreases alarms.len(),
{
    if alarms.len() == 0 {
        0
    } else {
        armed_count(alarms.drop_last()) + if alarms.last().armed {
            1nat
        } else {
            0nat
        }
    }
}

proof fn lemma_armed_count_le_len(s: Seq<VirtualMuxAlarm>)
    ensures
        armed_count(s) <= s.len(),
    decreases s.len(),
{
    if s.len() > 0 {
        lemma_armed_count_le_len(s.drop_last());
    }
}

proof fn lemma_armed_count_unarmed_lt(s: Seq<VirtualMuxAlarm>, i: int)
    requires
        0 <= i < s.len(),
        !s[i].armed,
    ensures
        armed_count(s) < s.len(),
    decreases s.len(),
{
    if i == s.len() - 1 {
        lemma_armed_count_le_len(s.drop_last());
    } else {
        lemma_armed_count_unarmed_lt(s.drop_last(), i);
    }
}

proof fn lemma_armed_count_armed_pos(s: Seq<VirtualMuxAlarm>, i: int)
    requires
        0 <= i < s.len(),
        s[i].armed,
    ensures
        armed_count(s) >= 1,
    decreases s.len(),
{
    if i < s.len() - 1 {
        lemma_armed_count_armed_pos(s.drop_last(), i);
    }
}

proof fn lemma_armed_count_update(s: Seq<VirtualMuxAlarm>, i: int, v: VirtualMuxAlarm)
    requires
        0 <= i < s.len(),
    ensures
        armed_count(s.update(i, v)) == armed_count(s) - (if s[i].armed {
            1int
        } else {
            0int
        }) + (if v.armed {
            1int
        } else {
            0int
        }),
    decreases s.len(),
{
    let t = s.update(i, v);
    if i == s.len() - 1 {
        assert(t.drop_last() =~= s.drop_last());
    } else {
        lemma_armed_count_update(s.drop_last(), i, v);
        assert(t.drop_last() =~= s.drop_last().update(i, v));
    }
}

proof fn lemma_armed_count_push(s: Seq<VirtualMuxAlarm>, v: VirtualMuxAlarm)
    ensures
        armed_count(s.push(v)) == armed_count(s) + (if v.armed {
            1nat
        } else {
            0nat
        }),
{
    assert(s.push(v).drop_last() =~= s);
}

/// Soundness of keeping the current hardware arming when a node is
/// re-armed: if the hardware's current deadline lies inside the new
/// window `[reference, reference + dt)`, then the hardware fires no
/// farther from `reference` than the new deadline does — so leaving it
/// untouched never makes the new alarm late. This is why
/// [`MuxAlarm::set_alarm`] writes the hardware exactly when the current
/// deadline lies outside the new window.
pub proof fn lemma_keep_current_arming(hw_deadline: u32, reference: u32, dt: u32)
    requires
        spec_within_range(hw_deadline, reference, reference.wrapping_add(dt)),
    ensures
        tick_distance(reference, hw_deadline) <= tick_distance(
            reference,
            reference.wrapping_add(dt),
        ),
{
    crate::ticks::lemma_wrap_add_sub(reference, dt);
}

/// Soundness of re-arming on the other branch: when the hardware's
/// current deadline lies outside the new window `[reference,
/// reference + dt)`, the new alarm is still pending, and the hardware
/// deadline does not lie between the new reference and now, then the new
/// deadline is no farther from `now` than the hardware's — so re-arming
/// the hardware to the new alarm never delays one it already covered.
/// (An alarm set with a reference beyond both `now` and the hardware
/// deadline falls outside these premises, and there the rewrite can
/// postpone the hardware past an armed deadline; the firing pass is
/// what re-arms the hardware to the true minimum.)
pub proof fn lemma_rewrite_arming_sound(now: u32, reference: u32, dt: u32, hw_deadline: u32)
    requires
        !spec_within_range(hw_deadline, reference, reference.wrapping_add(dt)),
        tick_distance(reference, now) < dt,
        tick_distance(reference, now) <= tick_distance(reference, hw_deadline),
    ensures
        tick_distance(now, reference.wrapping_add(dt)) <= tick_distance(now, hw_deadline),
{
    crate::ticks::lemma_wrap_add_sub(reference, dt);
}

/// The node arena, armed count and hardware state a disarm of node `idx`
/// leaves behind: disarming an unarmed node changes nothing; otherwise
/// the node is cleared, the count drops, and the hardware is disarmed
/// exactly when the count reaches zero.
pub open spec fn spec_disarm(
    alarms: Seq<VirtualMuxAlarm>,
    enabled: int,
    hw: HardwareAlarm,
    idx: int,
) -> (Seq<VirtualMuxAlarm>, int, HardwareAlarm) {
    let node = alarms[idx];
    if !node.armed {
        (alarms, enabled, hw)
    } else {
        (
            alarms.update(idx, VirtualMuxAlarm { armed: false, ..node }),
            enabled - 1,
            if enabled == 1 {
                HardwareAlarm { armed: false, ..hw }
            } else {
                hw
            },
        )
    }
}

/// Disarming is idempotent: a second disarm of the same node, right
/// after a first, is a no-op — it changes neither the nodes, nor the
/// armed count, nor the hardware (and [`MuxAlarm::disarm`] reports
/// success both times).
pub proof fn lemma_disarm_idempotent(
    alarms: Seq<VirtualMuxAlarm>,
    enabled: int,
    hw: HardwareAlarm,
    idx: int,
)
    requires
        0 <= idx < alarms.len(),
    ensures
        ({
            let once = spec_disarm(alarms, enabled, hw, idx);
            spec_disarm(once.0, once.1, once.2, idx) == once
        }),
{
}

/// The multiplexer: the arena of virtual alarm nodes, the count of armed
/// ones, the hardware alarm it exclusively owns, and the re-entrancy
/// phase marker for the firing pass.
pub struct MuxAlarm {
    /// Arena of virtual alarm nodes; a handle is an index into it.
    pub virtual_alarms: Vec<VirtualMuxAlarm>,
    /// Number of nodes currently armed.
    pub enabled: usize,
    /// The one underlying hardware alarm.
    pub alarm: HardwareAlarm,
    /// Whether a firing pass is open; while it is, arming a node writes
    /// no hardware register.
    pub firing: bool,
    /// The tick the open firing pass counts as "now": the deadline the
    /// hardware was armed for when the pass began.
    pub firing_now: u32,
}

impl MuxAlarm {
    /// The armed-node count the mux caches always equals the number of
    /// nodes with `armed` set.
    pub open spec fn wf(self) -> bool {
        self.enabled == armed_count(self.virtual_alarms@)
    }

    /// A mux that owns `alarm` and has no nodes yet.
    pub fn new(alarm: HardwareAlarm) -> (r: MuxAlarm)
        ensures
            r.wf(),
            r.virtual_alarms@.len() == 0,
            r.enabled == 0,
            r.alarm == alarm,
            !r.firing,
            r.firing_now == 0,
    {
        MuxAlarm { virtual_alarms: Vec::new(), enabled: 0, alarm, firing: false, firing_now: 0 }
    }

    /// Link `alarm` into this mux as a new node, register `client` as its
    /// single notification target, and hand back the node's handle.
    /// Registration resets the node to the disabled zero state, so a
    /// deadline the node carried before it was linked is discarded.
    pub fn set_alarm_client(&mut self, alarm: VirtualMuxAlarm, client: u32) -> (idx: usize)
        requires
            old(self).wf(),
        ensures
            final(self).wf(),
            idx == old(self).virtual_alarms@.len(),
            final(self).virtual_alarms@ == old(self).virtual_alarms@.push(
                VirtualMuxAlarm { reference: 0u32, dt: 0u32, armed: false, client: Some(client) },
            ),
            final(self).enabled == old(self).enabled,
            final(self).alarm == old(self).alarm,
            final(self).firing == old(self).firing,
            final(self).firing_now == old(self).firing_now,
    {
        let mut node = alarm;
        node.reference = 0;
        node.dt = 0;
        node.armed = false;
        node.client = Some(client);
        let idx = self.virtual_alarms.len();
        proof {
            lemma_armed_count_push(self.virtual_alarms@, node);
        }
        self.virtual_alarms.push(node);
        idx
    }

    /// Arm node `idx` to fire once the counter has travelled `dt` ticks
    /// past `reference`. If this is the first armed node, the hardware is
    /// armed for it directly. Otherwise, outside a firing pass, the
    /// hardware is re-armed exactly when its current deadline lies
    /// outside the new window `[reference, reference + dt)` — then the
    /// new deadline is no later than the current one; inside a firing
    /// pass nothing is written, since the pass re-scans for the minimum
    /// afterwards.
    pub fn set_alarm(&mut self, idx: usize, reference: u32, dt: u32)
        requires
            old(self).wf(),
            idx < old(self).virtual_alarms@.len(),
        ensures
            final(self).wf(),
            final(self).virtual_alarms@ == old(self).virtual_alarms@.update(
                idx as int,
                VirtualMuxAlarm {
                    reference,
                    dt,
                    armed: true,
                    client: old(self).virtual_alarms@[idx as int].client,
                },
            ),
            final(self).enabled == old(self).enabled + (if old(
                self,
            ).virtual_alarms@[idx as int].armed {
                0int
            } else {
                1int
            }),
            final(self).firing == old(self).firing,
            final(self).firing_now == old(self).firing_now,
            final(self).alarm == (if old(self).enabled == 0 || (!old(self).firing
                && !spec_within_range(
                old(self).alarm.spec_get_alarm(),
                reference,
                reference.wrapping_add(dt),
            )) {
                HardwareAlarm { armed: true, reference, dt, ..old(self).alarm }
            } else {
                old(self).alarm
            }),
    {
        let enabled = self.enabled;
        let n = self.virtual_alarms.len();
        if !self.virtual_alarms[idx].armed {
            proof {
                lemma_armed_count_unarmed_lt(self.virtual_alarms@, idx as int);
                assert(armed_count(self.virtual_alarms@) < n);
                lemma_armed_count_update(
                    self.virtual_alarms@,
                    idx as int,
                    VirtualMuxAlarm { armed: true, ..self.virtual_alarms@[idx as int] },
                );
            }
            self.enabled = enabled + 1;
            self.virtual_alarms[idx].armed = true;
        }
        // First armed alarm: the hardware is idle, arm it. Otherwise the
        // hardware already covers some armed deadline; re-arm it only when
        // the new window shows the new deadline to be no later.
        if enabled == 0 {
            self.alarm.set_alarm(reference, dt);
        } else if !self.firing {
            let cur_alarm = self.alarm.get_alarm();
            if !within_range(cur_alarm, reference, reference.wrapping_add(dt)) {
                self.alarm.set_alarm(reference, dt);
            }
        }
        proof {
            lemma_armed_count_update(
                self.virtual_alarms@,
                idx as int,
                VirtualMuxAlarm { reference, ..self.virtual_alarms@[idx as int] },
            );
        }
        self.virtual_alarms[idx].reference = reference;
        proof {
            lemma_armed_count_update(
                self.virtual_alarms@,
                idx as int,
                VirtualMuxAlarm { dt, ..self.virtual_alarms@[idx as int] },
            );
        }
        self.virtual_alarms[idx].dt = dt;
        proof {
            assert(final(self).virtual_alarms@ =~= old(self).virtual_alarms@.update(
                idx as int,
                VirtualMuxAlarm {
                    reference,
                    dt,
                    armed: true,
                    client: old(self).virtual_alarms@[idx as int].client,
                },
            ));
        }
    }

    /// Disarm node `idx`. Disarming an already-disarmed node succeeds
    /// with no state change and no hardware write, so a second disarm in
    /// a row is a no-op. Otherwise the node is cleared, the armed count
    /// drops, and when it reaches zero the hardware is disarmed too.
    pub fn disarm(&mut self, idx: usize) -> (rc: ReturnCode)
        requires
            old(self).wf(),
            idx < old(self).virtual_alarms@.len(),
        ensures
            final(self).wf(),
            rc == ReturnCode::Success,
            (final(self).virtual_alarms@, final(self).enabled as int, final(self).alarm)
                == spec_disarm(
                old(self).virtual_alarms@,
                old(self).enabled as int,
                old(self).alarm,
                idx as int,
            ),
            !old(self).virtual_alarms@[idx as int].armed ==> *final(self) == *old(self),
            old(self).virtual_alarms@[idx as int].armed ==> {
                &&& final(self).virtual_alarms@ == old(self).virtual_alarms@.update(
                    idx as int,
                    VirtualMuxAlarm { armed: false, ..old(self).virtual_alarms@[idx as int] },
                )
                &&& final(self).enabled == old(self).enabled - 1
                &&& final(self).firing == old(self).firing
                &&& final(self).firing_now == old(self).firing_now
                &&& final(self).alarm == (if old(self).enabled == 1 {
                    HardwareAlarm { armed: false, ..old(self).alarm }
                } else {
                    old(self).alarm
                })
            },
    {
        if !self.virtual_alarms[idx].armed {
            return ReturnCode::Success;
        }
        proof {
            lemma_armed_count_armed_pos(self.virtual_alarms@, idx as int);
            lemma_armed_count_update(
                self.virtual_alarms@,
                idx as int,
                VirtualMuxAlarm { armed: false, ..self.virtual_alarms@[idx as int] },
            );
        }
        self.virtual_alarms[idx].armed = false;
        let enabled = self.enabled - 1;
        self.enabled = enabled;
        // No armed alarms remain: disable the hardware alarm completely.
        if enabled == 0 {
            self.alarm.disarm();
        }
        ReturnCode::Success
    }

    /// Whether node `idx` is armed.
    pub fn is_armed(&self, idx: usize) -> (r: bool)
        requires
            idx < self.virtual_alarms@.len(),
        ensures
            r == self.virtual_alarms@[idx as int].armed,
    {
        self.virtual_alarms[idx].armed
    }

    /// Absolute deadline tick of node `idx`: its `reference + dt`.
    pub fn get_alarm(&self, idx: usize) -> (r: u32)
        requires
            idx < self.virtual_alarms@.len(),
        ensures
            r == self.virtual_alarms@[idx as int].spec_deadline(),
    {
        let node = self.virtual_alarms[idx];
        node.reference.wrapping_add(node.dt)
    }

    /// The registered client of node `idx`, for delivering firing
    /// notifications.
    pub fn get_client(&self, idx: usize) -> (r: Option<u32>)
        requires
            idx < self.virtual_alarms@.len(),
        ensures
            r == self.virtual_alarms@[idx as int].client,
    {
        self.virtual_alarms[idx].client
    }

    /// Current counter value of the underlying hardware.
    pub fn now(&self) -> (r: u32)
        ensures
            r == self.alarm.now,
    {
        self.alarm.now()
    }

    /// Smallest deadline distance the underlying hardware can hit.
    pub fn minimum_dt(&self) -> (r: u32)
        ensures
            r == 1,
    {
        self.alarm.minimum_dt()
    }

    /// Open a firing pass after the hardware alarm has fired: take the
    /// armed deadline — not a live counter read, so that a delayed
    /// interrupt still evaluates every other node as "not yet elapsed" —
    /// as the pass's `now`, clear every elapsed node, and hand back the
    /// handles of the cleared nodes, in arena order, each exactly once.
    /// The caller notifies their clients and then closes the pass with
    /// [`MuxAlarm::finish_firing`]; a client that re-arms a node in
    /// between writes no hardware register, because the pass is open.
    pub fn begin_firing(&mut self) -> (r: (u32, Vec<usize>))
        requires
            old(self).wf(),
            !old(self).firing,
        ensures
            final(self).wf(),
            final(self).firing,
            r.0 == old(self).alarm.spec_get_alarm(),
            final(self).firing_now == r.0,
            final(self).alarm == old(self).alarm,
            final(self).enabled == old(self).enabled - r.1@.len(),
            final(self).virtual_alarms@.len() == old(self).virtual_alarms@.len(),
            forall|j: int|
                0 <= j < old(self).virtual_alarms@.len() ==> final(self).virtual_alarms@[j] == (
                if node_elapsed(old(self).virtual_alarms@[j], r.0) {
                    VirtualMuxAlarm { armed: false, ..old(self).virtual_alarms@[j] }
                } else {
                    old(self).virtual_alarms@[j]
                }),
            forall|k: int|
                0 <= k < r.1@.len() ==> 0 <= r.1@[k] < old(self).virtual_alarms@.len()
                    && node_elapsed(old(self).virtual_alarms@[r.1@[k] as int], r.0),
            forall|j: int|
                0 <= j < old(self).virtual_alarms@.len() && node_elapsed(
                    old(self).virtual_alarms@[j],
                    r.0,
                ) ==> exists|k: int| 0 <= k < r.1@.len() && r.1@[k] == j,
            forall|k: int| 0 <= k < r.1@.len() - 1 ==> #[trigger] r.1@[k] < r.1@[k + 1],
    {
        let now = self.alarm.get_alarm();
        self.firing = true;
        self.firing_now = now;
        let mut fired: Vec<usize> = Vec::new();
        let n = self.virtual_alarms.len();
        let mut i: usize = 0;
        while i < n
            invariant
                n == old(self).virtual_alarms@.len(),
                i <= n,
                self.virtual_alarms@.len() == n,
                self.enabled == armed_count(self.virtual_alarms@),
                self.alarm == old(self).alarm,
                self.firing,
                self.firing_now == now,
                now == old(self).alarm.spec_get_alarm(),
                forall|j: int|
                    0 <= j < i ==> self.virtual_alarms@[j] == (if node_elapsed(
                        old(self).virtual_alarms@[j],
                        now,
                    ) {
                        VirtualMuxAlarm { armed: false, ..old(self).virtual_alarms@[j] }
                    } else {
                        old(self).virtual_alarms@[j]
                    }),
                forall|j: int| i <= j < n ==> self.virtual_alarms@[j] == old(
                    self,
                ).virtual_alarms@[j],
                self.enabled == old(self).enabled - fired@.len(),
                forall|k: int|
                    0 <= k < fired@.len() ==> 0 <= fired@[k] < i && node_elapsed(
                        old(self).virtual_alarms@[fired@[k] as int],
                        now,
                    ),
                forall|j: int|
                    0 <= j < i && node_elapsed(old(self).virtual_alarms@[j], now) ==> exists|k: int|
                        0 <= k < fired@.len() && fired@[k] == j,
                forall|k: int| 0 <= k < fired@.len() - 1 ==> #[trigger] fired@[k] < fired@[k + 1],
            decreases n - i,
        {
            let node = self.virtual_alarms[i];
            if node.armed && !within_range(
                now,
                node.reference,
                node.reference.wrapping_add(node.dt),
            ) {
                proof {
                    lemma_armed_count_armed_pos(self.virtual_alarms@, i as int);
                    lemma_armed_count_update(
                        self.virtual_alarms@,
                        i as int,
                        VirtualMuxAlarm { armed: false, ..self.virtual_alarms@[i as int] },
                    );
                }
                self.virtual_alarms[i].armed = false;
                self.enabled = self.enabled - 1;
                let ghost prev = fired@;
                fired.push(i);
                proof {
                    assert forall|j: int|
                        0 <= j < i + 1 && node_elapsed(
                            old(self).virtual_alarms@[j],
                            now,
                        ) implies exists|k: int| 0 <= k < fired@.len() && fired@[k] == j by {
                        if j == i {
                            assert(fired@[fired@.len() - 1] == j);
                        } else {
                            let k0 = choose|k: int| 0 <= k < prev.len() && prev[k] == j;
                            assert(fired@[k0] == j);
                        }
                    }
                }
            }
            i = i + 1;
        }
        (now, fired)
    }

    /// Close a firing pass: clear the phase marker and re-arm the
    /// hardware for the armed node whose deadline lies the fewest ticks
    /// past the pass's `now` — which covers alarms the notified clients
    /// set during the pass — or disarm the hardware when no node is
    /// armed. Whenever any node is armed, the hardware deadline chosen
    /// here is no farther from `now` than any armed node's deadline.
    pub fn finish_firing(&mut self)
        requires
            old(self).wf(),
            old(self).firing,
        ensures
            final(self).wf(),
            !final(self).firing,
            final(self).virtual_alarms == old(self).virtual_alarms,
            final(self).enabled == old(self).enabled,
            final(self).firing_now == old(self).firing_now,
            final(self).alarm.now == old(self).alarm.now,
            final(self).alarm.frequency == old(self).alarm.frequency,
            (forall|j: int|
                0 <= j < old(self).virtual_alarms@.len() ==> !old(self).virtual_alarms@[j].armed)
                ==> final(self).alarm == (HardwareAlarm { armed: false, ..old(self).alarm }),
            (exists|j: int|
                0 <= j < old(self).virtual_alarms@.len() && old(self).virtual_alarms@[j].armed)
                ==> {
                &&& final(self).alarm.armed
                &&& exists|j: int|
                    0 <= j < old(self).virtual_alarms@.len() && old(self).virtual_alarms@[j].armed
                        && final(self).alarm.reference == old(self).virtual_alarms@[j].reference
                        && final(self).alarm.dt == old(self).virtual_alarms@[j].dt
                &&& forall|j: int|
                    0 <= j < old(self).virtual_alarms@.len() && old(self).virtual_alarms@[j].armed
                        ==> tick_distance(
                        old(self).firing_now,
                        final(self).alarm.spec_get_alarm(),
                    ) <= tick_distance(
                        old(self).firing_now,
                        old(self).virtual_alarms@[j].spec_deadline(),
                    )
            },
    {
        let now = self.firing_now;
        self.firing = false;
        let n = self.virtual_alarms.len();
        let mut best: Option<usize> = None;
        let mut i: usize = 0;
        while i < n
            invariant
                n == self.virtual_alarms@.len(),
                i <= n,
                now == self.firing_now,
                best matches None ==> forall|j: int| 0 <= j < i ==> !self.virtual_alarms@[j].armed,
                best matches Some(b) ==> 0 <= b < i && self.virtual_alarms@[b as int].armed
                    && forall|j: int|
                    0 <= j < i && self.virtual_alarms@[j].armed ==> tick_distance(
                        now,
                        self.virtual_alarms@[b as int].spec_deadline(),
                    ) <= tick_distance(now, self.virtual_alarms@[j].spec_deadline()),
            decreases n - i,
        {
            let node = self.virtual_alarms[i];
            if node.armed {
                best = match best {
                    None => Some(i),
                    Some(b) => {
                        let bnode = self.virtual_alarms[b];
                        let best_key = bnode.reference.wrapping_add(bnode.dt).wrapping_sub(now);
                        let node_key = node.reference.wrapping_add(node.dt).wrapping_sub(now);
                        if node_key < best_key {
                            Some(i)
                        } else {
                            Some(b)
                        }
                    },
                };
            }
            i = i + 1;
        }
        match best {
            Some(b) => {
                let bnode = self.virtual_alarms[b];
                self.alarm.set_alarm(bnode.reference, bnode.dt);
            },
            None => {
                self.alarm.disarm();
            },
        }
    }
}

} // verus!
