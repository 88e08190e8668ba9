//! The remote-control protocol and the tick owner that applies it.
//!
//! Commands arrive decoded from the network, pass through the command
//! channel, and are applied here, one tick at a time, by the single
//! owner of all display state.  Every response the application produces
//! is published on the response bus for all subscribed connections.

use vstd::prelude::*;
use crate::bingo::BingoState;
use crate::channel::CommandChannel;
use crate::channel::ResponseBus;
use crate::channel::pending_m;
use crate::countdown::CountdownTimer;
use crate::loader::PresetManager;
use crate::text::TextSource;
use crate::text::TextQueue;
use crate::text::ScrollingState;
use crate::text::ScrollState;

verus! {

/// The one bingo operation a client may request.
#[derive(Clone, Copy, PartialEq, Eq, Structural, Debug)]
pub enum BingoMethod {
    Next,
}

/// The one countdown operation a client may request.
#[derive(Clone, Copy, PartialEq, Eq, Structural, Debug)]
pub enum CountdownMethod {
    Start,
}

/// A decoded inbound command.
pub enum WsCommand {
    /// Address item `index` of preset `preset`, swapping the preset in
    /// first if it is not the current one.
    Bulletin { preset: String, index: u32 },
    Bingo { method: BingoMethod },
    Countdown { method: CountdownMethod },
    ListPresets,
}

/// The texts around the addressed bulletin item; absent neighbours read
/// as empty strings.
pub struct BulletinResponse {
    pub prev_text: String,
    pub now_text: String,
    pub next_text: String,
}

impl Clone for BulletinResponse {
    fn clone(&self) -> (r: Self)
        ensures
            r == *self,
    {
        BulletinResponse {
            prev_text: self.prev_text.clone(),
            now_text: self.now_text.clone(),
            next_text: self.next_text.clone(),
        }
    }
}

/// A drawn bingo number and how many draws have happened so far.
#[derive(Clone, Copy, PartialEq, Eq, Structural, Debug)]
pub struct BingoResponse {
    pub current: u8,
    pub no: u8,
}

/// A countdown status note, such as "started" or "finished".
pub struct CountdownResponse {
    pub status: String,
}

impl Clone for CountdownResponse {
    fn clone(&self) -> (r: Self)
        ensures
            r == *self,
    {
        CountdownResponse { status: self.status.clone() }
    }
}

/// Every preset name the catalog offers.
pub struct PresetListResponse {
    pub presets: Vec<String>,
}

impl Clone for PresetListResponse {
    fn clone(&self) -> (r: Self)
        ensures
            r.presets@ == self.presets@,
    {
        let n = self.presets.len();
        let mut names: Vec<String> = Vec::new();
        let mut i: usize = 0;
        while i < n
            invariant
                i <= n,
                n == self.presets@.len(),
                names@.len() == i,
                forall|k: int| 0 <= k < i ==> names@[k] == self.presets@[k],
            decreases n - i,
        {
            names.push(self.presets[i].clone());
            i = i + 1;
        }
        proof {
            assert(names@ =~= self.presets@);
        }
        PresetListResponse { presets: names }
    }
}

/// A response published to every subscribed connection.
pub enum WsResponse {
    Bulletin(BulletinResponse),
    Bingo(BingoResponse),
    Countdown(CountdownResponse),
    PresetList(PresetListResponse),
}

/// The observable content of a command, with strings read as character
/// sequences.
pub enum CmdM {
    Bulletin { preset: Seq<char>, index: u32 },
    BingoNext,
    CountdownStart,
    ListPresets,
}

/// The observable content of a command.
pub open spec fn cmd_m(c: WsCommand) -> CmdM {
    match c {
        WsCommand::Bulletin { preset, index } => CmdM::Bulletin { preset: preset@, index },
        WsCommand::Bingo { method } => CmdM::BingoNext,
        WsCommand::Countdown { method } => CmdM::CountdownStart,
        WsCommand::ListPresets => CmdM::ListPresets,
    }
}

/// The observable content of a response, with strings read as character
/// sequences.  Two responses with equal content are delivered alike.
pub enum RespM {
    Bulletin { prev: Seq<char>, now: Seq<char>, next: Seq<char> },
    Bingo { current: u8, no: u8 },
    Countdown { status: Seq<char> },
    PresetList { names: Seq<Seq<char>> },
}

/// The observable content of a response.
pub open spec fn resp_m(r: WsResponse) -> RespM {
    match r {
        WsResponse::Bulletin(b) => RespM::Bulletin {
            prev: b.prev_text@,
            now: b.now_text@,
            next: b.next_text@,
        },
        WsResponse::Bingo(b) => RespM::Bingo { current: b.current, no: b.no },
        WsResponse::Countdown(c) => RespM::Countdown { status: c.status@ },
        WsResponse::PresetList(p) => RespM::PresetList {
            names: p.presets@.map_values(|s: String| s@),
        },
    }
}

impl Clone for WsResponse {
    fn clone(&self) -> (r: Self)
        ensures
            resp_m(r) == resp_m(*self),
    {
        match self {
            WsResponse::Bulletin(b) => WsResponse::Bulletin(b.clone()),
            WsResponse::Bingo(b) => WsResponse::Bingo(*b),
            WsResponse::Countdown(c) => WsResponse::Countdown(c.clone()),
            WsResponse::PresetList(p) => WsResponse::PresetList(p.clone()),
        }
    }
}

/// The observable content of an optional response.
pub open spec fn opt_resp_m(r: Option<WsResponse>) -> Option<RespM> {
    match r {
        Some(x) => Some(resp_m(x)),
        None => None,
    }
}

/// An optional response as a run of zero or one responses.
pub open spec fn opt_resp_seq(r: Option<RespM>) -> Seq<RespM> {
    match r {
        Some(x) => seq![x],
        None => Seq::empty(),
    }
}

/// Everything observable about the tick owner's state: the catalog, the
/// active queue, the scroll state, the bingo draw and the countdown.
pub struct OwnerM {
    pub catalog: Seq<crate::loader::PresetEntry>,
    pub texts: Seq<TextSource>,
    pub queue_index: int,
    pub preset: Seq<char>,
    pub scroll: ScrollState,
    pub bingo_numbers: Seq<u8>,
    pub bingo_index: int,
    pub countdown: CountdownTimer,
}

/// The queue, preset name and index a bulletin command resolves against:
/// naming the current preset or an unknown one keeps the current queue;
/// naming another known preset swaps its items in and resets the index.
pub open spec fn spec_resolved(m: OwnerM, preset: Seq<char>) -> (Seq<TextSource>, Seq<char>, int) {
    if m.preset == preset {
        (m.texts, m.preset, m.queue_index)
    } else {
        match crate::loader::spec_find_from(m.catalog, preset, 0) {
            Some(fi) => (m.catalog[fi].texts@, preset, 0),
            None => (m.texts, m.preset, m.queue_index),
        }
    }
}

/// One bulletin command: resolve the preset, and when the index
/// addresses an item, display it and answer with its neighbourhood;
/// an out-of-range index changes nothing further and answers nothing.
pub open spec fn step_bulletin_m(m: OwnerM, preset: Seq<char>, index: u32) -> (
    OwnerM,
    Option<RespM>,
) {
    let resolved = spec_resolved(m, preset);
    let texts2 = resolved.0;
    let preset2 = resolved.1;
    if index < texts2.len() {
        (
            OwnerM {
                texts: texts2,
                preset: preset2,
                queue_index: index as int,
                scroll: crate::text::spec_scroll_state_for(texts2[index as int].duration),
                ..m
            },
            Some(
                RespM::Bulletin {
                    prev: crate::text::content_at_or_empty(texts2, index - 1),
                    now: texts2[index as int].content@,
                    next: crate::text::content_at_or_empty(texts2, index + 1),
                },
            ),
        )
    } else {
        (OwnerM { texts: texts2, preset: preset2, queue_index: resolved.2, ..m }, None)
    }
}

/// One command applied to the owner's state: the new state and the
/// response to publish, if the command produces one.
pub open spec fn step_m(m: OwnerM, c: CmdM) -> (OwnerM, Option<RespM>) {
    match c {
        CmdM::Bulletin { preset, index } => step_bulletin_m(m, preset, index),
        CmdM::BingoNext => {
            if m.bingo_index < 75 {
                (
                    OwnerM { bingo_index: m.bingo_index + 1, ..m },
                    Some(
                        RespM::Bingo {
                            current: m.bingo_numbers[m.bingo_index],
                            no: (m.bingo_index + 1) as u8,
                        },
                    ),
                )
            } else {
                (m, None)
            }
        },
        CmdM::CountdownStart => (
            OwnerM {
                countdown: CountdownTimer {
                    duration_ms: m.countdown.duration_ms,
                    total_elapsed_ms: 0,
                    current_number_start_ms: 0,
                    is_active: true,
                    last_displayed_number: -1i32,
                    just_finished: false,
                    mode: m.countdown.mode,
                },
                ..m
            },
            Some(RespM::Countdown { status: "started"@ }),
        ),
        CmdM::ListPresets => (
            m,
            Some(
                RespM::PresetList {
                    names: m.catalog.map_values(|e: crate::loader::PresetEntry| e.name@),
                },
            ),
        ),
    }
}

/// A run of commands applied in arrival order: the final state and the
/// responses published along the way, in publish order.
pub open spec fn run_m(m: OwnerM, cmds: Seq<CmdM>) -> (OwnerM, Seq<RespM>)
    decreases cmds.len(),
{
    if cmds.len() == 0 {
        (m, Seq::empty())
    } else {
        let head = step_m(m, cmds[0]);
        let rest = run_m(head.0, cmds.drop_first());
        (rest.0, opt_resp_seq(head.1) + rest.1)
    }
}

/// Running one more command steps the run's final state and appends
/// that step's response to the run's output.
pub proof fn lemma_run_m_snoc(m: OwnerM, cmds: Seq<CmdM>, c: CmdM)
    ensures
        run_m(m, cmds.push(c)).0 == step_m(run_m(m, cmds).0, c).0,
        run_m(m, cmds.push(c)).1 == run_m(m, cmds).1 + opt_resp_seq(step_m(run_m(m, cmds).0, c).1),
    decreases cmds.len(),
{
    if cmds.len() == 0 {
        reveal_with_fuel(run_m, 3);
        assert(cmds.push(c)[0] == c);
        assert(cmds.push(c).drop_first() =~= Seq::<CmdM>::empty());
        assert(run_m(m, cmds.push(c)).0 == step_m(m, c).0);
        assert(opt_resp_seq(step_m(m, c).1) + Seq::<RespM>::empty() =~= opt_resp_seq(
            step_m(m, c).1,
        ));
        assert(Seq::<RespM>::empty() + opt_resp_seq(step_m(m, c).1) =~= opt_resp_seq(
            step_m(m, c).1,
        ));
    } else {
        let head = step_m(m, cmds[0]);
        assert(cmds.push(c)[0] == cmds[0]);
        assert(cmds.push(c).drop_first() =~= cmds.drop_first().push(c));
        lemma_run_m_snoc(head.0, cmds.drop_first(), c);
        assert(opt_resp_seq(head.1) + (run_m(head.0, cmds.drop_first()).1 + opt_resp_seq(
            step_m(run_m(m, cmds).0, c).1,
        )) =~= (opt_resp_seq(head.1) + run_m(head.0, cmds.drop_first()).1) + opt_resp_seq(
            step_m(run_m(m, cmds).0, c).1,
        ));
    }
}

/// A run never publishes more than it will have published by its end.
pub proof fn lemma_run_prefix_len(m: OwnerM, cmds: Seq<CmdM>, i: int)
    requires
        0 <= i <= cmds.len(),
    ensures
        run_m(m, cmds.take(i)).1.len() <= run_m(m, cmds).1.len(),
    decreases cmds.len() - i,
{
    if i == cmds.len() {
        assert(cmds.take(i) =~= cmds);
    } else {
        assert(cmds.take(i + 1) =~= cmds.take(i).push(cmds[i]));
        lemma_run_m_snoc(m, cmds.take(i), cmds[i]);
        lemma_run_prefix_len(m, cmds, i + 1);
    }
}

/// No command lengthens the countdown's elapsed time or touches its
/// configured duration and mode: only a start command changes the timer,
/// and it resets the elapsed time to zero.
pub proof fn lemma_run_countdown(m: OwnerM, cmds: Seq<CmdM>)
    ensures
        run_m(m, cmds).0.countdown.total_elapsed_ms <= m.countdown.total_elapsed_ms,
        run_m(m, cmds).0.countdown.duration_ms == m.countdown.duration_ms,
        run_m(m, cmds).0.countdown.mode == m.countdown.mode,
    decreases cmds.len(),
{
    if cmds.len() > 0 {
        lemma_run_countdown(step_m(m, cmds[0]).0, cmds.drop_first());
    }
}

/// Law: a bulletin naming preset `p` with an index valid for `p`'s
/// resolved queue leaves the owner at exactly that preset and index;
/// one whose index is out of range, naming the current preset or an
/// unknown one, changes nothing and answers nothing.
pub proof fn lemma_bulletin_addresses(m: OwnerM, preset: Seq<char>, index: u32)
    ensures
        index < spec_resolved(m, preset).0.len() ==> ({
            let stepped = step_m(m, CmdM::Bulletin { preset, index });
            &&& stepped.0.queue_index == index
            &&& stepped.0.preset == (if m.preset == preset
                || crate::loader::spec_find_from(m.catalog, preset, 0) is Some {
                preset
            } else {
                m.preset
            })
        }),
        index >= spec_resolved(m, preset).0.len() && (m.preset == preset
            || crate::loader::spec_find_from(m.catalog, preset, 0) is None) ==> step_m(
            m,
            CmdM::Bulletin { preset, index },
        ) == (m, Option::<RespM>::None),
{
    if index >= spec_resolved(m, preset).0.len() && (m.preset == preset
        || crate::loader::spec_find_from(m.catalog, preset, 0) is None) {
        assert(step_m(m, CmdM::Bulletin { preset, index }).0 == m);
    }
}

/// Law: the preset-list response carries every name in the catalog, in
/// catalog order, and touches no state.
pub proof fn lemma_list_presets_complete(m: OwnerM)
    ensures
        step_m(m, CmdM::ListPresets).0 == m,
        step_m(m, CmdM::ListPresets).1 matches Some(RespM::PresetList { names }) && names.len()
            == m.catalog.len() && (forall|k: int|
            0 <= k < m.catalog.len() ==> names[k] == m.catalog[k].name@),
{
}

/// The single owner of all display state.  Once per display frame it
/// drains the command channel, applies each command in arrival order to
/// the state machines it owns, and publishes every resulting response on
/// the bus.  Nothing else ever mutates this state.
pub struct TickOwner {
    pub presets: PresetManager,
    pub text_queue: TextQueue,
    pub scrolling: ScrollingState,
    pub bingo: BingoState,
    pub countdown: CountdownTimer,
}

/// Everything observable about a tick owner.
pub open spec fn owner_m(o: TickOwner) -> OwnerM {
    OwnerM {
        catalog: o.presets.presets@,
        texts: o.text_queue.texts@,
        queue_index: o.text_queue.current_index as int,
        preset: o.text_queue.current_preset@,
        scroll: o.scrolling.state,
        bingo_numbers: o.bingo.numbers@,
        bingo_index: o.bingo.index as int,
        countdown: o.countdown,
    }
}

impl TickOwner {
    /// Every owned state machine is well formed.
    pub open spec fn wf(&self) -> bool {
        &&& self.presets.wf()
        &&& self.text_queue.wf()
        &&& self.bingo.wf()
        &&& self.countdown.wf()
    }

    /// Assembles the owner from its parts.
    pub fn new(
        presets: PresetManager,
        text_queue: TextQueue,
        scrolling: ScrollingState,
        bingo: BingoState,
        countdown: CountdownTimer,
    ) -> (r: Self)
        requires
            presets.wf(),
            text_queue.wf(),
            bingo.wf(),
            countdown.wf(),
        ensures
            r.wf(),
            r.presets == presets,
            r.text_queue == text_queue,
            r.scrolling == scrolling,
            r.bingo == bingo,
            r.countdown == countdown,
    {
        TickOwner { presets, text_queue, scrolling, bingo, countdown }
    }

    /// Applies one decoded command to the owned state and returns the
    /// response to publish, if the command produces one: exactly the
    /// step `step_m` describes.
    pub fn apply_command(&mut self, cmd: WsCommand) -> (resp: Option<WsResponse>)
        requires
            old(self).wf(),
        ensures
            final(self).wf(),
            owner_m(*final(self)) == step_m(owner_m(*old(self)), cmd_m(cmd)).0,
            opt_resp_m(resp) == step_m(owner_m(*old(self)), cmd_m(cmd)).1,
    {
        match cmd {
            WsCommand::Bulletin { preset, index } => {
                if !(self.text_queue.current_preset == preset) {
                    let cloned: Option<Vec<TextSource>> = match self.presets.get(&preset) {
                        Some(texts) => Some(crate::text::clone_texts(texts)),
                        None => None,
                    };
                    match cloned {
                        Some(ct) => {
                            self.text_queue.texts = ct;
                            self.text_queue.current_preset = preset;
                            self.text_queue.current_index = 0;
                        },
                        None => {},
                    }
                }
                let idx = index as usize;
                if idx < self.text_queue.texts.len() {
                    self.text_queue.current_index = idx;
                    let duration = self.text_queue.texts[idx].duration;
                    self.scrolling.enter_item(duration);
                    let now_text = self.text_queue.texts[idx].content.clone();
                    let prev_text = if idx > 0 {
                        self.text_queue.texts[idx - 1].content.clone()
                    } else {
                        String::new()
                    };
                    let next_text = if idx + 1 < self.text_queue.texts.len() {
                        self.text_queue.texts[idx + 1].content.clone()
                    } else {
                        String::new()
                    };
                    Some(WsResponse::Bulletin(BulletinResponse { prev_text, now_text, next_text }))
                } else {
                    None
                }
            },
            WsCommand::Bingo { method } => match method {
                BingoMethod::Next => {
                    match self.bingo.next() {
                        Some(n) => {
                            let no = self.bingo.index as u8;
                            Some(WsResponse::Bingo(BingoResponse { current: n, no }))
                        },
                        None => None,
                    }
                },
            },
            WsCommand::Countdown { method } => match method {
                CountdownMethod::Start => {
                    self.countdown.start();
                    Some(
                        WsResponse::Countdown(
                            CountdownResponse { status: ("started").to_owned() },
                        ),
                    )
                },
            },
            WsCommand::ListPresets => {
                let names = self.presets.names();
                proof {
                    assert(names@.map_values(|s: String| s@) =~= self.presets.presets@.map_values(
                        |e: crate::loader::PresetEntry| e.name@,
                    ));
                }
                Some(WsResponse::PresetList(PresetListResponse { presets: names }))
            },
        }
    }

    /// The display layer reports that a scrolling text has fully left
    /// the viewport: a one-shot scroll falls back to idle, a looping
    /// text keeps going.  Whether a completed one-shot scroll advances
    /// the queue to the next item or waits for an explicit command is a
    /// deliberate choice left to the caller's configuration.
    pub fn on_scroll_complete(&mut self, auto_advance: bool)
        requires
            old(self).wf(),
        ensures
            final(self).wf(),
            final(self).scrolling.state == (if old(self).scrolling.state
                == ScrollState::Scrolling {
                ScrollState::Idle
            } else {
                old(self).scrolling.state
            }),
            final(self).text_queue.texts == old(self).text_queue.texts,
            final(self).text_queue.current_preset == old(self).text_queue.current_preset,
            final(self).text_queue.current_index == (if auto_advance && old(
                self,
            ).scrolling.state == ScrollState::Scrolling && old(self).text_queue.current_index + 1
                < old(self).text_queue.texts@.len() {
                old(self).text_queue.current_index + 1
            } else {
                old(self).text_queue.current_index as int
            }),
            final(self).presets == old(self).presets,
            final(self).bingo == old(self).bingo,
            final(self).countdown == old(self).countdown,
    {
        let was_scrolling = match self.scrolling.state {
            ScrollState::Scrolling => true,
            _ => false,
        };
        self.scrolling.on_exit_viewport();
        if auto_advance && was_scrolling {
            self.text_queue.advance();
        }
    }

    /// One display tick: drain the command channel, apply every drained
    /// command in arrival order, publish each resulting response at
    /// once, advance the countdown by the frame's delta, and publish the
    /// countdown's finish notice the moment its edge fires.  Every
    /// subscriber with room for all of this tick's responses receives
    /// exactly those responses, in publish order.
    pub fn tick(&mut self, delta_ms: u64, chan: &mut CommandChannel, bus: &mut ResponseBus)
        requires
            old(self).wf(),
            old(bus).wf(),
            old(self).countdown.total_elapsed_ms + delta_ms <= u64::MAX,
        ensures
            final(self).wf(),
            final(bus).wf(),
            final(chan).wf(),
            final(chan).queue@.len() == 0,
            final(chan).capacity == old(chan).capacity,
            final(bus).capacity == old(bus).capacity,
            final(bus).next_id == old(bus).next_id,
            final(bus).subs@.len() == old(bus).subs@.len(),
            forall|k: int|
                0 <= k < old(bus).subs@.len() ==> (#[trigger] final(bus).subs@[k]).id == old(
                    bus,
                ).subs@[k].id,
            ({
                let cmds = old(chan).queue@.map_values(|c: WsCommand| cmd_m(c));
                let run = run_m(owner_m(*old(self)), cmds);
                let cd1 = CountdownTimer::spec_after_tick(run.0.countdown, delta_ms as int);
                let fin = cd1.just_finished;
                let pubs = run.1 + (if fin {
                    seq![RespM::Countdown { status: "finished"@ }]
                } else {
                    Seq::<RespM>::empty()
                });
                &&& owner_m(*final(self)) == (OwnerM {
                    countdown: CountdownTimer { just_finished: false, ..cd1 },
                    ..run.0
                })
                &&& (forall|k: int|
                    0 <= k < old(bus).subs@.len() && (#[trigger] old(
                        bus,
                    ).subs@[k]).pending@.len() + pubs.len() <= old(bus).capacity
                        ==> pending_m(final(bus).subs@[k]) == pending_m(old(bus).subs@[k]) + pubs
                        && final(bus).subs@[k].lagged == old(bus).subs@[k].lagged)
            }),
    {
        let ghost m0 = owner_m(*old(self));
        let ghost oldq = old(chan).queue@;
        let ghost cmdsm = oldq.map_values(|c: WsCommand| cmd_m(c));
        let mut rest = chan.drain_all();
        let n = rest.len();
        proof {
            assert(rest@ =~= oldq.subrange(0, n as int));
            assert(cmdsm.take(0) =~= Seq::<CmdM>::empty());
        }
        let mut i: usize = 0;
        while i < n
            invariant
                i <= n,
                n == cmdsm.len(),
                n == oldq.len(),
                cmdsm == oldq.map_values(|c: WsCommand| cmd_m(c)),
                m0 == owner_m(*old(self)),
                rest@ == oldq.subrange(i as int, n as int),
                self.wf(),
                owner_m(*self) == run_m(m0, cmdsm.take(i as int)).0,
                chan.queue@.len() == 0,
                chan.capacity == old(chan).capacity,
                bus.wf(),
                bus.capacity == old(bus).capacity,
                bus.next_id == old(bus).next_id,
                bus.subs@.len() == old(bus).subs@.len(),
                forall|k: int|
                    0 <= k < old(bus).subs@.len() ==> (#[trigger] bus.subs@[k]).id == old(
                        bus,
                    ).subs@[k].id,
                forall|k: int|
                    0 <= k < old(bus).subs@.len() && (#[trigger] old(
                        bus,
                    ).subs@[k]).pending@.len() + run_m(m0, cmdsm).1.len() <= old(bus).capacity
                        ==> pending_m(bus.subs@[k]) == pending_m(old(bus).subs@[k]) + run_m(
                        m0,
                        cmdsm.take(i as int),
                    ).1 && bus.subs@[k].lagged == old(bus).subs@[k].lagged,
            decreases n - i,
        {
            let c = rest.remove(0);
            proof {
                assert(rest@ =~= oldq.subrange(i as int + 1, n as int));
                assert(c == oldq[i as int]);
                assert(cmd_m(c) == cmdsm[i as int]);
                assert(cmdsm.take(i as int + 1) =~= cmdsm.take(i as int).push(cmdsm[i as int]));
                lemma_run_m_snoc(m0, cmdsm.take(i as int), cmdsm[i as int]);
                lemma_run_prefix_len(m0, cmdsm, i as int + 1);
            }
            let ghost run_i = run_m(m0, cmdsm.take(i as int));
            let resp = self.apply_command(c);
            match resp {
                Some(r) => {
                    let ghost bus_pre = *bus;
                    bus.publish(&r);
                    proof {
                        assert forall|k: int|
                            0 <= k < old(bus).subs@.len() && (#[trigger] old(
                                bus,
                            ).subs@[k]).pending@.len() + run_m(m0, cmdsm).1.len() <= old(
                                bus,
                            ).capacity implies pending_m(bus.subs@[k]) == pending_m(
                            old(bus).subs@[k],
                        ) + run_m(m0, cmdsm.take(i as int + 1)).1 && bus.subs@[k].lagged == old(
                            bus,
                        ).subs@[k].lagged by {
                            assert(pending_m(bus_pre.subs@[k]) == pending_m(old(bus).subs@[k])
                                + run_i.1);
                            assert(bus_pre.subs@[k].pending@.len() == pending_m(
                                bus_pre.subs@[k],
                            ).len());
                            assert(run_m(m0, cmdsm.take(i as int + 1)).1.len() <= run_m(
                                m0,
                                cmdsm,
                            ).1.len());
                            assert(bus_pre.subs@[k].pending@.len() < bus_pre.capacity);
                            assert(pending_m(bus.subs@[k]) == pending_m(bus_pre.subs@[k]).push(
                                resp_m(r),
                            ));
                            assert((pending_m(old(bus).subs@[k]) + run_i.1).push(resp_m(r)) =~= (
                            pending_m(old(bus).subs@[k]) + (run_i.1 + opt_resp_seq(
                                Some(resp_m(r)),
                            ))));
                        }
                    }
                },
                None => {
                    proof {
                        assert forall|k: int|
                            0 <= k < old(bus).subs@.len() && (#[trigger] old(
                                bus,
                            ).subs@[k]).pending@.len() + run_m(m0, cmdsm).1.len() <= old(
                                bus,
                            ).capacity implies pending_m(bus.subs@[k]) == pending_m(
                            old(bus).subs@[k],
                        ) + run_m(m0, cmdsm.take(i as int + 1)).1 by {
                            assert(run_i.1 + opt_resp_seq(Option::<RespM>::None) =~= run_i.1);
                        }
                    }
                },
            }
            i = i + 1;
        }
        proof {
            assert(cmdsm.take(n as int) =~= cmdsm);
            lemma_run_countdown(m0, cmdsm);
        }
        let ghost run_full = run_m(m0, cmdsm);
        let _ = self.countdown.tick(delta_ms);
        let fin = self.countdown.take_finished();
        let ghost cd1 = CountdownTimer::spec_after_tick(run_full.0.countdown, delta_ms as int);
        if fin {
            let resp = WsResponse::Countdown(CountdownResponse { status: ("finished").to_owned() });
            let ghost bus_pre = *bus;
            bus.publish(&resp);
            proof {
                let pubs = run_full.1 + seq![RespM::Countdown { status: "finished"@ }];
                assert forall|k: int|
                    0 <= k < old(bus).subs@.len() && (#[trigger] old(
                        bus,
                    ).subs@[k]).pending@.len() + pubs.len() <= old(bus).capacity implies pending_m(
                    bus.subs@[k],
                ) == pending_m(old(bus).subs@[k]) + pubs && bus.subs@[k].lagged == old(
                    bus,
                ).subs@[k].lagged by {
                    assert(pending_m(bus_pre.subs@[k]) == pending_m(old(bus).subs@[k])
                        + run_full.1);
                    assert(bus_pre.subs@[k].pending@.len() == pending_m(bus_pre.subs@[k]).len());
                    assert(bus_pre.subs@[k].pending@.len() < bus_pre.capacity);
                    assert(resp_m(resp) == RespM::Countdown { status: "finished"@ });
                    assert((pending_m(old(bus).subs@[k]) + run_full.1).push(resp_m(resp)) =~= (
                    pending_m(old(bus).subs@[k]) + pubs));
                }
            }
        } else {
            proof {
                assert(run_full.1 + Seq::<RespM>::empty() =~= run_full.1);
            }
        }
    }
}

} // verus!
