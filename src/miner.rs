use vstd::prelude::*;

verus! {

/// Seconds between two blocks of the background miner.
pub const TICK_SECONDS: u64 = 1;

/// Where the background miner stands.
#[derive(PartialEq, Eq, Structural, Clone, Copy, Debug)]
pub enum MinerPhase {
    /// Sleeping until the next tick.
    Waiting,
    /// A one-block generation request is outstanding.
    Generating,
    /// A generation failed: no further blocks are requested.
    Halted,
}

/// What the driver of the miner reports back.
#[derive(PartialEq, Eq, Structural, Clone, Copy, Debug)]
pub enum MinerEvent {
    /// The sleep of one tick has ended.
    Elapsed,
    /// The node generated the requested block.
    BlockGenerated,
    /// The node failed to generate the requested block.
    GenerationFailed,
}

/// What the driver of the miner is to do next.
#[derive(Clone, Debug)]
pub enum MinerAction {
    /// Sleep for the given number of seconds, then report `Elapsed`.
    Sleep { seconds: u64 },
    /// Generate `count` blocks rewarding `address`, then report the outcome.
    Generate { count: u64, address: String },
    /// Stop: the miner has halted.
    Stop,
}

/// The unattended miner that advances the chain by one block per tick, always
/// rewarding the address fixed at bootstrap.
pub struct Miner {
    reward_address: String,
    phase: MinerPhase,
    blocks_mined: u64,
}

/// The phase that follows `p` on event `e`. An event that the phase does not
/// await halts the miner, and a halted miner stays halted.
pub open spec fn next_phase(p: MinerPhase, e: MinerEvent) -> MinerPhase {
    match (p, e) {
        (MinerPhase::Waiting, MinerEvent::Elapsed) => MinerPhase::Generating,
        (MinerPhase::Generating, MinerEvent::BlockGenerated) => MinerPhase::Waiting,
        _ => MinerPhase::Halted,
    }
}

/// Whether event `e` in phase `p` reports one more block on the chain.
pub open spec fn adds_block(p: MinerPhase, e: MinerEvent) -> bool {
    p == MinerPhase::Generating && e == MinerEvent::BlockGenerated
}

/// The action that a miner in phase `p`, rewarding `address`, asks for.
pub open spec fn action_for(p: MinerPhase, address: Seq<char>, a: MinerAction) -> bool {
    match p {
        MinerPhase::Waiting => a matches MinerAction::Sleep { seconds } && seconds == TICK_SECONDS,
        MinerPhase::Generating => a matches MinerAction::Generate { count, address: to } && count == 1
            && to@ == address,
        MinerPhase::Halted => a is Stop,
    }
}

/// The phase after the events of `es`, in order, from phase `p`.
pub open spec fn phase_after(p: MinerPhase, es: Seq<MinerEvent>) -> MinerPhase
    decreases es.len(),
{
    if es.len() == 0 {
        p
    } else {
        phase_after(next_phase(p, es[0]), es.drop_first())
    }
}

/// The number of blocks that the events of `es` report, from phase `p`.
pub open spec fn blocks_after(p: MinerPhase, es: Seq<MinerEvent>) -> nat
    decreases es.len(),
{
    if es.len() == 0 {
        0
    } else {
        (if adds_block(p, es[0]) { 1nat } else { 0nat }) + blocks_after(next_phase(p, es[0]), es.drop_first())
    }
}

/// `n` ticks that all succeed: each a sleep that ends, then a block.
pub open spec fn successful_ticks(n: nat) -> Seq<MinerEvent>
    decreases n,
{
    if n == 0 {
        seq![]
    } else {
        seq![MinerEvent::Elapsed, MinerEvent::BlockGenerated] + successful_ticks((n - 1) as nat)
    }
}

impl Miner {
    pub closed spec fn spec_reward_address(&self) -> Seq<char> {
        self.reward_address@
    }

    pub closed spec fn spec_phase(&self) -> MinerPhase {
        self.phase
    }

    pub closed spec fn spec_blocks_mined(&self) -> nat {
        self.blocks_mined as nat
    }

    /// A miner for `reward_address`, and its first action: sleep one tick.
    pub fn start(reward_address: String) -> (r: (Miner, MinerAction))
        ensures
            r.0.spec_reward_address() == reward_address@,
            r.0.spec_phase() == MinerPhase::Waiting,
            r.0.spec_blocks_mined() == 0,
            action_for(MinerPhase::Waiting, reward_address@, r.1),
    {
        (Miner { reward_address, phase: MinerPhase::Waiting, blocks_mined: 0 }, MinerAction::Sleep { seconds: TICK_SECONDS })
    }

    /// Takes the outcome of the last action and returns the next one. The
    /// reward address never changes; every generation request is for one block
    /// to that address; a failed generation halts the miner for good.
    pub fn step(&mut self, event: MinerEvent) -> (r: MinerAction)
        ensures
            final(self).spec_reward_address() == old(self).spec_reward_address(),
            final(self).spec_phase() == next_phase(old(self).spec_phase(), event),
            final(self).spec_blocks_mined() == if adds_block(old(self).spec_phase(), event)
                && old(self).spec_blocks_mined() < u64::MAX {
                old(self).spec_blocks_mined() + 1
            } else {
                old(self).spec_blocks_mined()
            },
            action_for(final(self).spec_phase(), final(self).spec_reward_address(), r),
    {
        match (self.phase, event) {
            (MinerPhase::Waiting, MinerEvent::Elapsed) => {
                self.phase = MinerPhase::Generating;
                MinerAction::Generate { count: 1, address: self.reward_address.clone() }
            },
            (MinerPhase::Generating, MinerEvent::BlockGenerated) => {
                self.phase = MinerPhase::Waiting;
                if self.blocks_mined < u64::MAX {
                    self.blocks_mined = self.blocks_mined + 1;
                }
                MinerAction::Sleep { seconds: TICK_SECONDS }
            },
            _ => {
                self.phase = MinerPhase::Halted;
                MinerAction::Stop
            },
        }
    }

    pub fn reward_address(&self) -> (r: &String)
        ensures
            r@ == self.spec_reward_address(),
    {
        &self.reward_address
    }

    pub fn phase(&self) -> (r: MinerPhase)
        ensures
            r == self.spec_phase(),
    {
        self.phase
    }

    /// The blocks generated since start, saturating at `u64::MAX`.
    pub fn blocks_mined(&self) -> (r: u64)
        ensures
            r == self.spec_blocks_mined(),
    {
        self.blocks_mined
    }

    /// Whether the miner has stopped for good.
    pub fn is_halted(&self) -> (r: bool)
        ensures
            r == (self.spec_phase() == MinerPhase::Halted),
    {
        self.phase == MinerPhase::Halted
    }
}

/// While every tick succeeds, the chain grows by exactly one block per tick:
/// after `n` ticks from a waiting miner, `n` blocks were generated and the
/// miner waits again.
pub proof fn lemma_one_block_per_tick(n: nat)
    ensures
        phase_after(MinerPhase::Waiting, successful_ticks(n)) == MinerPhase::Waiting,
        blocks_after(MinerPhase::Waiting, successful_ticks(n)) == n,
    decreases n,
{
    if n > 0 {
        let es = successful_ticks(n);
        let rest = successful_ticks((n - 1) as nat);
        let tail = es.drop_first();
        assert(es[0] == MinerEvent::Elapsed);
        assert(tail =~= seq![MinerEvent::BlockGenerated] + rest);
        assert(tail[0] == MinerEvent::BlockGenerated);
        assert(tail.drop_first() =~= rest);
        lemma_one_block_per_tick((n - 1) as nat);
        assert(phase_after(MinerPhase::Generating, tail) == phase_after(MinerPhase::Waiting, rest));
        assert(blocks_after(MinerPhase::Generating, tail) == 1 + blocks_after(MinerPhase::Waiting, rest));
        assert(blocks_after(MinerPhase::Waiting, es) == blocks_after(MinerPhase::Generating, tail));
    }
}

/// A halted miner never generates another block, whatever it is told.
pub proof fn lemma_halted_is_final(es: Seq<MinerEvent>)
    ensures
        phase_after(MinerPhase::Halted, es) == MinerPhase::Halted,
        blocks_after(MinerPhase::Halted, es) == 0,
    decreases es.len(),
{
    if es.len() > 0 {
        lemma_halted_is_final(es.drop_first());
    }
}

} // verus!
