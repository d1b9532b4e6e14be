use vstd::prelude::*;

verus! {

/// Interrupts that the CD-ROM controller schedules for itself.
#[derive(Debug, Clone, Copy, PartialEq, Eq, Structural)]
pub enum CDROMEventType {
    CdRomRaiseIrq { irq: u8 },
    CdRomRaiseIrqFor2ndResponse { irq: u8, cmd_to_complete: u8, delay: Option<u64> },
}

/// What a scheduled event stands for.
#[derive(Debug, Clone, Copy, PartialEq, Eq, Structural)]
pub enum EventType {
    HBlankStart,
    HBlankEnd,
    RasterLineEnd,
    Timer0,
    Timer1,
    Timer2,
    SIO0,
    DoThrottle,
    GPUCommandCompleted,
    CDROM(CDROMEventType),
}

/// An event handed out by the clock, with how many cycles late it is.
#[derive(Debug, Clone, Copy)]
pub struct Event {
    pub event_type: EventType,
    pub over_cycles: usize,
}

/// A pending event and the CPU cycle at which it is due.
#[derive(Debug, Clone, Copy)]
pub struct ClockEvent {
    pub event_type: EventType,
    pub timestamp: u64,
}

/// CPU and GPU clock frequencies of a video standard.
#[derive(Debug, Clone, Copy)]
pub struct ClockConfig {
    pub cpu_hz: u64,
    pub gpu_hz: u64,
}

pub const NTSC_CPU_CLOCK: u64 = 33_868_800;
pub const NTSC_GPU_CLOCK: u64 = 53_693_175;
pub const PAL_CPU_CLOCK: u64 = 33_868_800;
pub const PAL_GPU_CLOCK: u64 = 53_203_425;

/// `cycles` of a clock at `from_hz` expressed in cycles of a clock at `to_hz` (rounded down).
pub open spec fn convert_cycles(cycles: u64, from_hz: u64, to_hz: u64) -> int {
    (cycles as int * to_hz as int) / from_hz as int
}

impl ClockConfig {
    pub fn ntsc() -> (r: ClockConfig)
        ensures r.cpu_hz == NTSC_CPU_CLOCK && r.gpu_hz == NTSC_GPU_CLOCK,
    {
        ClockConfig { cpu_hz: NTSC_CPU_CLOCK, gpu_hz: NTSC_GPU_CLOCK }
    }

    pub fn pal() -> (r: ClockConfig)
        ensures r.cpu_hz == PAL_CPU_CLOCK && r.gpu_hz == PAL_GPU_CLOCK,
    {
        ClockConfig { cpu_hz: PAL_CPU_CLOCK, gpu_hz: PAL_GPU_CLOCK }
    }

    /// GPU cycles expressed in CPU cycles: `gpu_cycles * cpu_hz / gpu_hz`.
    pub fn gpu_to_cpu_cycles(&self, gpu_cycles: u64) -> (r: u64)
        requires
            self.gpu_hz > 0,
            convert_cycles(gpu_cycles, self.gpu_hz, self.cpu_hz) <= u64::MAX,
        ensures
            r == convert_cycles(gpu_cycles, self.gpu_hz, self.cpu_hz),
    {
        proof {
            assert(gpu_cycles as u128 * self.cpu_hz as u128 <= u64::MAX as u128 * u64::MAX as u128) by (nonlinear_arith);
        }
        let p: u128 = gpu_cycles as u128 * self.cpu_hz as u128;
        (p / self.gpu_hz as u128) as u64
    }

    /// CPU cycles expressed in GPU cycles: `cpu_cycles * gpu_hz / cpu_hz`.
    pub fn cpu_to_gpu_cycles(&self, cpu_cycles: u64) -> (r: u64)
        requires
            self.cpu_hz > 0,
            convert_cycles(cpu_cycles, self.cpu_hz, self.gpu_hz) <= u64::MAX,
        ensures
            r == convert_cycles(cpu_cycles, self.cpu_hz, self.gpu_hz),
    {
        proof {
            assert(cpu_cycles as u128 * self.gpu_hz as u128 <= u64::MAX as u128 * u64::MAX as u128) by (nonlinear_arith);
        }
        let p: u128 = cpu_cycles as u128 * self.gpu_hz as u128;
        (p / self.cpu_hz as u128) as u64
    }
}

/// Index of the first event with the smallest timestamp (0 for an empty sequence).
pub open spec fn min_index(s: Seq<ClockEvent>) -> int
    decreases s.len(),
{
    if s.len() <= 1 {
        0
    } else {
        let j = min_index(s.drop_last());
        if s.last().timestamp < s[j].timestamp { s.len() - 1 } else { j }
    }
}

/// The event handed out for a pending one at time `now`.
pub open spec fn event_at(e: ClockEvent, now: u64) -> Event {
    Event { event_type: e.event_type, over_cycles: (now - e.timestamp) as usize }
}

/// Takes, earliest first, every event due by `now`: what stays pending and what was taken.
pub open spec fn drain_ready(s: Seq<ClockEvent>, now: u64) -> (Seq<ClockEvent>, Seq<Event>)
    decreases s.len(),
{
    if s.len() == 0 || s[min_index(s)].timestamp > now {
        (s, Seq::empty())
    } else {
        let i = min_index(s);
        proof {
            lemma_min_index_bounds(s);
        }
        let rest = drain_ready(s.remove(i), now);
        (rest.0, seq![event_at(s[i], now)] + rest.1)
    }
}

/// The pending events whose type differs from `t`, in order.
pub open spec fn without_type(s: Seq<ClockEvent>, t: EventType) -> Seq<ClockEvent>
    decreases s.len(),
{
    if s.len() == 0 {
        Seq::empty()
    } else {
        let r = without_type(s.drop_last(), t);
        if s.last().event_type == t { r } else { r.push(s.last()) }
    }
}

/// The events of `s` whose entry in `dropped` is false, in order.
pub open spec fn select_kept(s: Seq<ClockEvent>, dropped: Seq<bool>) -> Seq<ClockEvent>
    decreases s.len(),
{
    if s.len() == 0 {
        Seq::empty()
    } else {
        let r = select_kept(s.drop_last(), dropped);
        if dropped[s.len() - 1] { r } else { r.push(s.last()) }
    }
}

/// Extending the choices past the end of `s` changes nothing of what is kept from `s`.
proof fn lemma_select_kept_prefix(s: Seq<ClockEvent>, a: Seq<bool>, b: Seq<bool>)
    requires
        s.len() <= a.len(),
        a.len() <= b.len(),
        forall|i: int| 0 <= i < a.len() ==> a[i] == b[i],
    ensures
        select_kept(s, a) == select_kept(s, b),
    decreases s.len(),
{
    if s.len() > 0 {
        lemma_select_kept_prefix(s.drop_last(), a, b);
    }
}

pub proof fn lemma_min_index_bounds(s: Seq<ClockEvent>)
    ensures
        s.len() > 0 ==> 0 <= min_index(s) < s.len(),
        forall|k: int| 0 <= k < s.len() ==> s[min_index(s)].timestamp <= #[trigger] s[k].timestamp,
    decreases s.len(),
{
    if s.len() > 1 {
        lemma_min_index_bounds(s.drop_last());
        assert forall|k: int| 0 <= k < s.len() implies s[min_index(s)].timestamp <= #[trigger] s[k].timestamp by {
            if k < s.len() - 1 {
                assert(s[k] == s.drop_last()[k]);
            }
        }
    }
}

/// The event scheduler: pending events and the current CPU cycle.
pub struct Clock {
    pub events: Vec<ClockEvent>,
    pub current_time: u64,
    pub clock_config: ClockConfig,
}

impl Clock {
    /// Whether the earliest pending event is due.
    pub open spec fn ready(&self) -> bool {
        self.events@.len() > 0 && self.events@[min_index(self.events@)].timestamp <= self.current_time
    }

    pub fn new(clock_config: ClockConfig) -> (r: Clock)
        ensures
            r.events@.len() == 0,
            r.current_time == 0,
            r.clock_config == clock_config,
    {
        Clock { events: Vec::new(), current_time: 0, clock_config }
    }

    pub fn get_clock_config(&self) -> (r: &ClockConfig)
        ensures *r == self.clock_config,
    {
        &self.clock_config
    }

    pub fn current_time(&self) -> (r: u64)
        ensures r == self.current_time,
    {
        self.current_time
    }

    pub fn advance_time(&mut self, cpu_cycles: u64)
        requires
            old(self).current_time + cpu_cycles <= u64::MAX,
        ensures
            final(self).current_time == old(self).current_time + cpu_cycles,
            final(self).events@ == old(self).events@,
            final(self).clock_config == old(self).clock_config,
    {
        self.current_time = self.current_time + cpu_cycles;
    }

    /// Schedules `event_type` `cpu_cycles_ahead` cycles from now; returns its timestamp.
    pub fn schedule(&mut self, event_type: EventType, cpu_cycles_ahead: u64) -> (target: u64)
        requires
            old(self).current_time + cpu_cycles_ahead <= u64::MAX,
        ensures
            target == old(self).current_time + cpu_cycles_ahead,
            final(self).events@ == old(self).events@.push(ClockEvent { event_type, timestamp: target }),
            final(self).current_time == old(self).current_time,
            final(self).clock_config == old(self).clock_config,
    {
        let target = self.current_time + cpu_cycles_ahead;
        self.events.push(ClockEvent { event_type, timestamp: target });
        target
    }

    /// Schedules `event_type` `gpu_cycles_ahead` GPU cycles from now; returns its timestamp.
    pub fn schedule_gpu(&mut self, event_type: EventType, gpu_cycles_ahead: u64) -> (target: u64)
        requires
            old(self).clock_config.gpu_hz > 0,
            old(self).current_time + convert_cycles(gpu_cycles_ahead, old(self).clock_config.gpu_hz, old(self).clock_config.cpu_hz)
                <= u64::MAX,
        ensures
            target == old(self).current_time
                + convert_cycles(gpu_cycles_ahead, old(self).clock_config.gpu_hz, old(self).clock_config.cpu_hz),
            final(self).events@ == old(self).events@.push(ClockEvent { event_type, timestamp: target }),
            final(self).current_time == old(self).current_time,
            final(self).clock_config == old(self).clock_config,
    {
        let cpu_cycles = self.clock_config.gpu_to_cpu_cycles(gpu_cycles_ahead);
        self.schedule(event_type, cpu_cycles)
    }

    /// Schedules `event_type` after `gpu_cycles_ahead` GPU cycles, each stretched by the dot
    /// clock divider; returns its timestamp.
    pub fn schedule_gpu_dot_clock(&mut self, event_type: EventType, gpu_cycles_ahead: u64, dot_clock_divider: usize) -> (target: u64)
        requires
            old(self).clock_config.gpu_hz > 0,
            convert_cycles(gpu_cycles_ahead, old(self).clock_config.gpu_hz, old(self).clock_config.cpu_hz) <= u64::MAX,
            old(self).current_time + convert_cycles(gpu_cycles_ahead, old(self).clock_config.gpu_hz, old(self).clock_config.cpu_hz)
                * dot_clock_divider <= u64::MAX,
        ensures
            target == old(self).current_time
                + convert_cycles(gpu_cycles_ahead, old(self).clock_config.gpu_hz, old(self).clock_config.cpu_hz) * dot_clock_divider,
            final(self).events@ == old(self).events@.push(ClockEvent { event_type, timestamp: target }),
            final(self).current_time == old(self).current_time,
            final(self).clock_config == old(self).clock_config,
    {
        let ghost c = convert_cycles(gpu_cycles_ahead, self.clock_config.gpu_hz, self.clock_config.cpu_hz);
        proof {
            assert(0 <= c) by (nonlinear_arith)
                requires c == convert_cycles(gpu_cycles_ahead, self.clock_config.gpu_hz, self.clock_config.cpu_hz),
                    self.clock_config.gpu_hz > 0;
            assert(c <= c * dot_clock_divider || dot_clock_divider == 0) by (nonlinear_arith)
                requires 0 <= c;
            assert(0 <= c * dot_clock_divider) by (nonlinear_arith)
                requires 0 <= c;
        }
        let cpu_cycles = self.clock_config.gpu_to_cpu_cycles(gpu_cycles_ahead) * dot_clock_divider as u64;
        self.schedule(event_type, cpu_cycles)
    }

    /// Schedules `event_type` at the absolute cycle `timestamp`.
    pub fn schedule_absolute(&mut self, event_type: EventType, timestamp: u64)
        ensures
            final(self).events@ == old(self).events@.push(ClockEvent { event_type, timestamp }),
            final(self).current_time == old(self).current_time,
            final(self).clock_config == old(self).clock_config,
    {
        self.events.push(ClockEvent { event_type, timestamp });
    }

    /// Drops the pending events for whose type `predicate` answers true, keeping the order of
    /// the others.
    pub fn cancel_where<F: Fn(&EventType) -> bool>(&mut self, predicate: F)
        requires
            forall|t: &EventType| #[trigger] predicate.requires((t,)),
        ensures
            exists|dropped: Seq<bool>| dropped.len() == old(self).events@.len()
                && (forall|i: int| 0 <= i < dropped.len() ==> #[trigger] predicate.ensures((&old(self).events@[i].event_type,), dropped[i]))
                && final(self).events@ == select_kept(old(self).events@, dropped),
            final(self).current_time == old(self).current_time,
            final(self).clock_config == old(self).clock_config,
    {
        let mut kept: Vec<ClockEvent> = Vec::new();
        let n = self.events.len();
        let mut i: usize = 0;
        let ghost mut dropped: Seq<bool> = Seq::empty();
        while i < n
            invariant
                n == self.events@.len(),
                i <= n,
                dropped.len() == i,
                forall|t: &EventType| #[trigger] predicate.requires((t,)),
                forall|j: int| 0 <= j < i ==> #[trigger] predicate.ensures((&self.events@[j].event_type,), dropped[j]),
                kept@ == select_kept(self.events@.take(i as int), dropped),
            decreases n - i,
        {
            let e = self.events[i];
            let drop = predicate(&e.event_type);
            proof {
                let prev = dropped;
                dropped = dropped.push(drop);
                assert(self.events@.take(i as int + 1).drop_last() == self.events@.take(i as int));
                lemma_select_kept_prefix(self.events@.take(i as int), prev, dropped);
                assert(self.events@.take(i as int + 1).last() == e);
                assert(select_kept(self.events@.take(i as int + 1), dropped) == (if drop {
                    select_kept(self.events@.take(i as int), dropped)
                } else {
                    select_kept(self.events@.take(i as int), dropped).push(e)
                }));
            }
            if !drop {
                kept.push(e);
            }
            i = i + 1;
        }
        proof {
            assert(self.events@.take(n as int) == self.events@);
        }
        self.events = kept;
    }

    /// Drops every pending event of type `event_type`, keeping the others in order.
    pub fn cancel(&mut self, event_type: EventType)
        ensures
            final(self).events@ == without_type(old(self).events@, event_type),
            final(self).current_time == old(self).current_time,
            final(self).clock_config == old(self).clock_config,
    {
        let mut kept: Vec<ClockEvent> = Vec::new();
        let n = self.events.len();
        let mut i: usize = 0;
        while i < n
            invariant
                n == self.events@.len(),
                i <= n,
                kept@ == without_type(self.events@.take(i as int), event_type),
            decreases n - i,
        {
            let e = self.events[i];
            proof {
                assert(self.events@.take(i as int + 1).drop_last() == self.events@.take(i as int));
            }
            if e.event_type != event_type {
                kept.push(e);
            }
            i = i + 1;
        }
        proof {
            assert(self.events@.take(n as int) == self.events@);
        }
        self.events = kept;
    }

    /// Index of the first pending event with the smallest timestamp.
    fn earliest_index(&self) -> (r: usize)
        requires
            self.events@.len() > 0,
        ensures
            r == min_index(self.events@),
            r < self.events@.len(),
    {
        let n = self.events.len();
        let mut best: usize = 0;
        let mut i: usize = 1;
        while i < n
            invariant
                n == self.events@.len(),
                1 <= i <= n,
                best == min_index(self.events@.take(i as int)),
                best < i,
            decreases n - i,
        {
            proof {
                let t = self.events@.take(i as int + 1);
                assert(t.drop_last() == self.events@.take(i as int));
                assert(t.last() == self.events@[i as int]);
                assert(self.events@.take(i as int)[best as int] == self.events@[best as int]);
            }
            if self.events[i].timestamp < self.events[best].timestamp {
                best = i;
            }
            i = i + 1;
        }
        proof {
            assert(self.events@.take(n as int) == self.events@);
        }
        best
    }

    /// Takes the earliest pending event (which must be due), if any.
    pub fn next_event(&mut self) -> (r: Option<Event>)
        requires
            old(self).events@.len() > 0 ==> old(self).ready(),
        ensures
            old(self).events@.len() == 0 ==> r is None && final(self).events@ == old(self).events@,
            old(self).events@.len() > 0 ==> ({
                let i = min_index(old(self).events@);
                &&& r == Some(event_at(old(self).events@[i], old(self).current_time))
                &&& final(self).events@ == old(self).events@.remove(i)
            }),
            final(self).current_time == old(self).current_time,
            final(self).clock_config == old(self).clock_config,
    {
        if self.events.len() == 0 {
            return None;
        }
        let i = self.earliest_index();
        let e = self.events.remove(i);
        Some(Event { event_type: e.event_type, over_cycles: (self.current_time - e.timestamp) as usize })
    }

    /// Takes every due event, earliest first.
    pub fn next_events(&mut self) -> (r: Vec<Event>)
        ensures
            (final(self).events@, r@) == drain_ready(old(self).events@, old(self).current_time),
            final(self).current_time == old(self).current_time,
            final(self).clock_config == old(self).clock_config,
    {
        let mut events: Vec<Event> = Vec::new();
        let ghost start = self.events@;
        proof {
            let d = drain_ready(start, self.current_time);
            assert(events@ + d.1 == d.1);
        }
        loop
            invariant
                self.current_time == old(self).current_time,
                self.clock_config == old(self).clock_config,
                drain_ready(start, self.current_time)
                    == (drain_ready(self.events@, self.current_time).0, events@ + drain_ready(self.events@, self.current_time).1),
            ensures
                (self.events@, events@) == drain_ready(start, self.current_time),
            decreases self.events@.len(),
        {
            if self.events.len() == 0 {
                proof {
                    assert(drain_ready(self.events@, self.current_time) == (self.events@, Seq::<Event>::empty()));
                    assert(events@ + Seq::<Event>::empty() == events@);
                }
                break;
            }
            let i = self.earliest_index();
            if self.events[i].timestamp > self.current_time {
                proof {
                    assert(drain_ready(self.events@, self.current_time) == (self.events@, Seq::<Event>::empty()));
                    assert(events@ + Seq::<Event>::empty() == events@);
                }
                break;
            }
            let ghost before = self.events@;
            let e = self.events.remove(i);
            assert(e == before[i as int]);
            let ev = Event { event_type: e.event_type, over_cycles: (self.current_time - e.timestamp) as usize };
            proof {
                let rest = drain_ready(self.events@, self.current_time);
                assert(drain_ready(before, self.current_time) == (rest.0, seq![ev] + rest.1));
                assert(events@ + (seq![ev] + rest.1) == events@.push(ev) + rest.1);
            }
            events.push(ev);
        }
        events
    }

    /// Whether the earliest pending event is due.
    pub fn has_ready_event(&self) -> (r: bool)
        ensures
            r == self.ready(),
    {
        if self.events.len() == 0 {
            return false;
        }
        let i = self.earliest_index();
        self.current_time >= self.events[i].timestamp
    }

    /// The timestamp of the earliest pending event.
    pub fn next_event_time(&self) -> (r: Option<u64>)
        ensures
            self.events@.len() == 0 ==> r is None,
            self.events@.len() > 0 ==> r == Some(self.events@[min_index(self.events@)].timestamp),
    {
        if self.events.len() == 0 {
            return None;
        }
        let i = self.earliest_index();
        Some(self.events[i].timestamp)
    }
}

/// Events come out of the clock earliest first: the event taken is due no later than any other
/// pending one.
pub proof fn lemma_next_event_is_earliest(s: Seq<ClockEvent>, k: int)
    requires
        0 <= k < s.len(),
    ensures
        s[min_index(s)].timestamp <= s[k].timestamp,
{
    lemma_min_index_bounds(s);
}

} // verus!
