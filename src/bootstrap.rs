use vstd::prelude::*;
use crate::error::{Error, ErrorKind};

verus! {

/// Confirmations a block reward needs before it can be spent.
pub const MATURITY_WINDOW: u64 = 100;

/// The largest spendable quantity whose block count fits in a `u64`.
pub const MAX_SPENDABLE_QUANTITY: u64 = u64::MAX - MATURITY_WINDOW - 1;

/// The name of the single wallet that a node handle manages.
pub open spec fn wallet_name_spec() -> Seq<char> {
    "testwallet"@
}

/// The blocks that bootstrap generates so that `q` further rewards are
/// spendable: one maturity window, one block whose reward clears it, then `q`.
pub open spec fn blocks_for(q: nat) -> nat {
    (MATURITY_WINDOW + 1 + q) as nat
}

/// The block rewards that have cleared maturity on a chain of `height`
/// blocks, all rewarding the same wallet.
pub open spec fn matured_rewards(height: nat) -> nat {
    if height > MATURITY_WINDOW {
        (height - MATURITY_WINDOW) as nat
    } else {
        0
    }
}

/// The name of the managed wallet.
pub fn wallet_name() -> (r: String)
    ensures
        r@ == wallet_name_spec(),
{
    String::from_str("testwallet")
}

/// The number of blocks bootstrap generates for `spendable_quantity`, or
/// `None` where it does not fit in a `u64`.
pub fn bootstrap_block_count(spendable_quantity: u64) -> (r: Option<u64>)
    ensures
        r == if spendable_quantity <= MAX_SPENDABLE_QUANTITY {
            Some(blocks_for(spendable_quantity as nat) as u64)
        } else {
            None::<u64>
        },
{
    if spendable_quantity <= MAX_SPENDABLE_QUANTITY {
        Some(MATURITY_WINDOW + 1 + spendable_quantity)
    } else {
        None
    }
}

/// Where the bootstrap of a node handle stands.
#[derive(PartialEq, Eq, Structural, Clone, Copy, Debug)]
pub enum InitPhase {
    CreatingWallet,
    DerivingAddress,
    Generating,
    /// Done: the wallet is funded and the miner has been launched.
    Mining,
    Failed,
}

/// What the driver of the bootstrap reports back.
#[derive(Clone, Debug)]
pub enum InitEvent {
    WalletCreated,
    AddressDerived { address: String },
    BlocksGenerated,
    /// The outstanding RPC request failed.
    RpcFailed,
}

/// What the driver of the bootstrap is to do next.
#[derive(Clone, Debug)]
pub enum InitAction {
    CreateWallet { wallet: String },
    GetNewAddress { wallet: String },
    GenerateToAddress { count: u64, address: String },
    /// Launch the background miner for `address`; bootstrap has succeeded.
    SpawnMiner { address: String },
    /// Give up with `error`.
    Abort { error: Error },
    /// Bootstrap is over: nothing more to do.
    Nothing,
}

/// The phase that follows `p` on event `e`. Each step awaits one event; any
/// other fails the bootstrap. The last two phases are final.
pub open spec fn init_next_phase(p: InitPhase, e: InitEvent) -> InitPhase {
    match p {
        InitPhase::CreatingWallet => if e is WalletCreated { InitPhase::DerivingAddress } else { InitPhase::Failed },
        InitPhase::DerivingAddress => if e is AddressDerived { InitPhase::Generating } else { InitPhase::Failed },
        InitPhase::Generating => if e is BlocksGenerated { InitPhase::Mining } else { InitPhase::Failed },
        InitPhase::Mining => InitPhase::Mining,
        InitPhase::Failed => InitPhase::Failed,
    }
}

/// The error with which a failure in phase `p` is reported: a failure while
/// creating the wallet is a wallet creation error, any later one an RPC error.
pub open spec fn failure_in(p: InitPhase) -> ErrorKind {
    if p == InitPhase::CreatingWallet {
        ErrorKind::WalletCreation
    } else {
        ErrorKind::NodeRpc
    }
}

/// The action asked for on moving from phase `from` to phase `to`, for
/// quantity `q` and reward address `address`.
pub open spec fn init_action_for(from: InitPhase, to: InitPhase, q: nat, address: Seq<char>, a: InitAction) -> bool {
    if from == to {
        a is Nothing
    } else {
        match to {
            InitPhase::CreatingWallet => a matches InitAction::CreateWallet { wallet } && wallet@ == wallet_name_spec(),
            InitPhase::DerivingAddress => a matches InitAction::GetNewAddress { wallet } && wallet@ == wallet_name_spec(),
            InitPhase::Generating => a matches InitAction::GenerateToAddress { count, address: to_addr }
                && count == blocks_for(q) && to_addr@ == address,
            InitPhase::Mining => a matches InitAction::SpawnMiner { address: to_addr } && to_addr@ == address,
            InitPhase::Failed => a matches InitAction::Abort { error } && error.kind == failure_in(from),
        }
    }
}

/// The one-shot bootstrap of a node handle: create the managed wallet, derive
/// the reward address, generate enough blocks to make the requested quantity
/// spendable, then launch the miner on the same address.
pub struct Bootstrap {
    spendable_quantity: u64,
    phase: InitPhase,
    reward_address: String,
}

impl Bootstrap {
    pub closed spec fn spec_spendable_quantity(&self) -> nat {
        self.spendable_quantity as nat
    }

    pub closed spec fn spec_phase(&self) -> InitPhase {
        self.phase
    }

    /// The reward address; meaningful from `Generating` on.
    pub closed spec fn spec_reward_address(&self) -> Seq<char> {
        self.reward_address@
    }

    pub closed spec fn wf(&self) -> bool {
        self.spendable_quantity <= MAX_SPENDABLE_QUANTITY
    }

    /// A bootstrap for `spendable_quantity` and its first action, the creation
    /// of the managed wallet. A quantity whose block count does not fit in a
    /// `u64` is a configuration error.
    pub fn new(spendable_quantity: u64) -> (r: crate::error::Result<(Bootstrap, InitAction)>)
        ensures
            r.is_ok() <==> spendable_quantity <= MAX_SPENDABLE_QUANTITY,
            r.is_err() ==> r == Err::<(Bootstrap, InitAction), Error>(Error { kind: ErrorKind::Configuration }),
            r.is_ok() ==> ({
                let (b, a) = r.unwrap();
                &&& b.wf()
                &&& b.spec_spendable_quantity() == spendable_quantity
                &&& b.spec_phase() == InitPhase::CreatingWallet
                &&& a matches InitAction::CreateWallet { wallet } && wallet@ == wallet_name_spec()
            }),
    {
        if spendable_quantity > MAX_SPENDABLE_QUANTITY {
            return Err(Error::new(ErrorKind::Configuration));
        }
        let b = Bootstrap { spendable_quantity, phase: InitPhase::CreatingWallet, reward_address: String::new() };
        Ok((b, InitAction::CreateWallet { wallet: wallet_name() }))
    }

    /// Takes the outcome of the last action and returns the next one. The
    /// reward address is fixed when it is derived, and every later action that
    /// names an address names that one.
    pub fn step(&mut self, event: InitEvent) -> (r: InitAction)
        requires
            old(self).wf(),
        ensures
            final(self).wf(),
            final(self).spec_spendable_quantity() == old(self).spec_spendable_quantity(),
            final(self).spec_phase() == init_next_phase(old(self).spec_phase(), event),
            final(self).spec_reward_address() == if old(self).spec_phase() == InitPhase::DerivingAddress
                && event is AddressDerived {
                event->address@
            } else {
                old(self).spec_reward_address()
            },
            init_action_for(
                old(self).spec_phase(),
                final(self).spec_phase(),
                final(self).spec_spendable_quantity(),
                final(self).spec_reward_address(),
                r,
            ),
    {
        match self.phase {
            InitPhase::CreatingWallet => match event {
                InitEvent::WalletCreated => {
                    self.phase = InitPhase::DerivingAddress;
                    InitAction::GetNewAddress { wallet: wallet_name() }
                },
                _ => self.fail(ErrorKind::WalletCreation),
            },
            InitPhase::DerivingAddress => match event {
                InitEvent::AddressDerived { address } => {
                    self.phase = InitPhase::Generating;
                    self.reward_address = address;
                    InitAction::GenerateToAddress {
                        count: MATURITY_WINDOW + 1 + self.spendable_quantity,
                        address: self.reward_address.clone(),
                    }
                },
                _ => self.fail(ErrorKind::NodeRpc),
            },
            InitPhase::Generating => match event {
                InitEvent::BlocksGenerated => {
                    self.phase = InitPhase::Mining;
                    InitAction::SpawnMiner { address: self.reward_address.clone() }
                },
                _ => self.fail(ErrorKind::NodeRpc),
            },
            InitPhase::Mining => InitAction::Nothing,
            InitPhase::Failed => InitAction::Nothing,
        }
    }

    fn fail(&mut self, kind: ErrorKind) -> (r: InitAction)
        ensures
            final(self).spendable_quantity == old(self).spendable_quantity,
            final(self).reward_address@ == old(self).reward_address@,
            final(self).phase == InitPhase::Failed,
            r matches InitAction::Abort { error } && error.kind == kind,
    {
        self.phase = InitPhase::Failed;
        InitAction::Abort { error: Error::new(kind) }
    }

    pub fn spendable_quantity(&self) -> (r: u64)
        ensures
            r == self.spec_spendable_quantity(),
    {
        self.spendable_quantity
    }

    pub fn phase(&self) -> (r: InitPhase)
        ensures
            r == self.spec_phase(),
    {
        self.phase
    }
}

/// Bootstrapping for any quantity `q` leaves at least `q` block rewards
/// spendable: the chain it generates holds `q + 1` matured rewards.
pub proof fn lemma_bootstrap_funds_quantity(q: nat)
    ensures
        matured_rewards(blocks_for(q)) == q + 1,
        matured_rewards(blocks_for(q)) >= q,
{
}

} // verus!
