//! The provisioning-and-invocation workflow as an explicit state machine.
//!
//! The machine holds every decision of a run: how much funding is required,
//! whether to request a top-up, whether the data account must be created, and
//! how to read the final state. An unverified driver performs each requested
//! [`Action`] against the cluster and feeds the answer back as an [`Event`];
//! the machine never touches the network itself, so every transition is
//! checked for all possible cluster answers.

use vstd::prelude::*;
use crate::address::{Address, derived_address_of, ends_with_pda_marker, derive_with_seed};
use crate::fees::fee_total;
use crate::fees::required_fees;
use crate::fees::airdrop_amount;
use crate::state::GREETING_SIZE;
use crate::state::le_u32;
use crate::state::decode_greeting;

verus! {

/// Why a run aborted. No failure is swallowed: every one ends the run and is
/// surfaced to the operator.
#[derive(Debug, PartialEq, Eq, Clone)]
pub enum WorkflowError {
    /// The configured seed or program address admits no derived address.
    ConfigError,
    /// The fee total does not fit in a balance, so the payer cannot cover it.
    ExcessiveFees,
    /// The top-up was rejected or unconfirmed, or the balance stayed short
    /// after a confirmed top-up.
    InsufficientFunds,
    /// The cluster rejected a submitted transaction; `reason` carries the
    /// cluster's words verbatim.
    SubmissionRejected { reason: String },
    /// The data account was missing at the final state read.
    AccountNotFound,
    /// The fetched bytes do not match the record's fixed layout.
    DecodeError,
}

/// Where a run stands: which cluster answer it is waiting for.
#[derive(Debug, PartialEq, Eq, Clone, Copy)]
pub enum Stage {
    /// Awaiting the rent-exemption minimum and the per-signature fee.
    FeeQuery,
    /// Awaiting the payer's balance.
    BalanceQuery,
    /// Awaiting the outcome of a requested top-up.
    AwaitAirdrop,
    /// Awaiting the payer's balance again, after a confirmed top-up.
    BalanceRecheck,
    /// Awaiting the lookup of the derived data account.
    AccountLookup,
    /// Awaiting the outcome of the account-creation transaction.
    AwaitCreation,
    /// Awaiting the outcome of the invocation transaction.
    AwaitInvocation,
    /// Awaiting the data account's raw bytes.
    StateFetch,
    /// The run finished and reported the counter.
    Done,
    /// The run aborted.
    Failed,
}

/// What the driver must do next against the cluster.
#[derive(Debug, PartialEq, Eq, Clone)]
pub enum Action {
    /// Query the rent-exemption minimum for `account_size` bytes and the
    /// current per-signature fee.
    QueryFees { account_size: usize },
    /// Query the payer's balance.
    QueryBalance,
    /// Request a top-up of exactly `lamports` for the payer and block until
    /// the funding transaction is confirmed.
    RequestAirdrop { lamports: u64 },
    /// Look up whether an account exists at the derived address.
    QueryAccount,
    /// Submit an account-creation transaction for the derived address, owned
    /// by the program, sized `space`, funded with `lamports`, under a fresh
    /// blockhash, and wait for confirmation.
    SubmitCreation { lamports: u64, space: u64 },
    /// Submit the single program instruction against the derived account,
    /// under a fresh blockhash, and wait for confirmation.
    SubmitInvocation,
    /// Fetch the raw bytes stored at the derived address.
    FetchState,
    /// The run succeeded: the account has been greeted `counter` times.
    Report { counter: u32 },
    /// The run failed; stop without performing the remaining stages.
    Abort { error: WorkflowError },
}

/// What the cluster answered to the previous action.
#[derive(Debug, PartialEq, Eq, Clone)]
pub enum Event {
    /// Answer to `QueryFees`.
    FeeInputs { rent_exempt_min: u64, lamports_per_signature: u64 },
    /// Answer to `QueryBalance`.
    Balance { lamports: u64 },
    /// Answer to `RequestAirdrop`: whether the funding was confirmed.
    AirdropOutcome { confirmed: bool },
    /// Answer to `QueryAccount`: whether the derived account exists.
    AccountStatus { exists: bool },
    /// Answer to `SubmitCreation` or `SubmitInvocation`; on rejection,
    /// `reason` carries the cluster's words verbatim.
    SubmissionOutcome { accepted: bool, reason: String },
    /// Answer to `FetchState`: the account's bytes, or nothing when the
    /// account does not exist.
    AccountData { data: Option<Vec<u8>> },
}

/// One run of the workflow: the resolved identities, the derived account
/// address, and the progress of the run.
pub struct Workflow {
    /// Which cluster answer the run is waiting for.
    pub stage: Stage,
    /// The payer's address: fee payer and base of the derivation.
    pub payer: Address,
    /// The deployed program's address: owner of the data account.
    pub program: Address,
    /// The fixed seed of the derivation.
    pub seed: String,
    /// The derived data-account address, computed once per run.
    pub derived: Address,
    /// The fee estimate the payer's balance must reach; 0 until estimated.
    pub required: u64,
    /// The rent-exemption minimum for the record; 0 until queried.
    pub rent_exempt_min: u64,
}

/// The transition relation of a run: from the current state and the
/// cluster's answer to the successor state and the next action. `None` when
/// the answer is not the one the stage awaits, including any answer to a
/// finished run.
pub open spec fn next_spec(w: Workflow, e: Event) -> Option<(Workflow, Action)> {
    match (w.stage, e) {
        (Stage::FeeQuery, Event::FeeInputs { rent_exempt_min, lamports_per_signature }) => {
            if fee_total(rent_exempt_min, lamports_per_signature) <= u64::MAX {
                Some((
                    Workflow {
                        stage: Stage::BalanceQuery,
                        required: fee_total(rent_exempt_min, lamports_per_signature) as u64,
                        rent_exempt_min,
                        ..w
                    },
                    Action::QueryBalance,
                ))
            } else {
                Some((
                    Workflow { stage: Stage::Failed, ..w },
                    Action::Abort { error: WorkflowError::ExcessiveFees },
                ))
            }
        },
        (Stage::BalanceQuery, Event::Balance { lamports }) => {
            if lamports >= w.required {
                Some((Workflow { stage: Stage::AccountLookup, ..w }, Action::QueryAccount))
            } else {
                Some((
                    Workflow { stage: Stage::AwaitAirdrop, ..w },
                    Action::RequestAirdrop { lamports: (w.required - lamports) as u64 },
                ))
            }
        },
        (Stage::AwaitAirdrop, Event::AirdropOutcome { confirmed }) => {
            if confirmed {
                Some((Workflow { stage: Stage::BalanceRecheck, ..w }, Action::QueryBalance))
            } else {
                Some((
                    Workflow { stage: Stage::Failed, ..w },
                    Action::Abort { error: WorkflowError::InsufficientFunds },
                ))
            }
        },
        (Stage::BalanceRecheck, Event::Balance { lamports }) => {
            if lamports >= w.required {
                Some((Workflow { stage: Stage::AccountLookup, ..w }, Action::QueryAccount))
            } else {
                Some((
                    Workflow { stage: Stage::Failed, ..w },
                    Action::Abort { error: WorkflowError::InsufficientFunds },
                ))
            }
        },
        (Stage::AccountLookup, Event::AccountStatus { exists }) => {
            if exists {
                Some((Workflow { stage: Stage::AwaitInvocation, ..w }, Action::SubmitInvocation))
            } else {
                Some((
                    Workflow { stage: Stage::AwaitCreation, ..w },
                    Action::SubmitCreation {
                        lamports: w.rent_exempt_min,
                        space: GREETING_SIZE as u64,
                    },
                ))
            }
        },
        (Stage::AwaitCreation, Event::SubmissionOutcome { accepted, reason }) => {
            if accepted {
                Some((Workflow { stage: Stage::AwaitInvocation, ..w }, Action::SubmitInvocation))
            } else {
                Some((
                    Workflow { stage: Stage::Failed, ..w },
                    Action::Abort { error: WorkflowError::SubmissionRejected { reason } },
                ))
            }
        },
        (Stage::AwaitInvocation, Event::SubmissionOutcome { accepted, reason }) => {
            if accepted {
                Some((Workflow { stage: Stage::StateFetch, ..w }, Action::FetchState))
            } else {
                Some((
                    Workflow { stage: Stage::Failed, ..w },
                    Action::Abort { error: WorkflowError::SubmissionRejected { reason } },
                ))
            }
        },
        (Stage::StateFetch, Event::AccountData { data }) => {
            match data {
                Option::None => Some((
                    Workflow { stage: Stage::Failed, ..w },
                    Action::Abort { error: WorkflowError::AccountNotFound },
                )),
                Option::Some(bytes) => {
                    if bytes@.len() == GREETING_SIZE {
                        Some((
                            Workflow { stage: Stage::Done, ..w },
                            Action::Report {
                                counter: le_u32(bytes@[0], bytes@[1], bytes@[2], bytes@[3]),
                            },
                        ))
                    } else {
                        Some((
                            Workflow { stage: Stage::Failed, ..w },
                            Action::Abort { error: WorkflowError::DecodeError },
                        ))
                    }
                },
            }
        },
        _ => None,
    }
}

impl Workflow {
    /// Start a run for the given payer, program and seed. The data-account
    /// address is derived here, once, deterministically; an ASCII seed of at
    /// most 32 bytes and an owner without the reserved marker always admit
    /// one.
    pub fn new(payer: Address, program: Address, seed: String) -> (r: Result<Workflow, WorkflowError>)
        ensures
            r matches Ok(w) ==> {
                &&& w.stage is FeeQuery
                &&& w.payer == payer
                &&& w.program == program
                &&& w.seed == seed
                &&& w.derived@ == derived_address_of(payer@, seed@, program@)
                &&& w.required == 0
                &&& w.rent_exempt_min == 0
            },
            r matches Err(err) ==> err is ConfigError,
            vstd::utf8::is_ascii_chars(seed@) && seed@.len() <= 32 && !ends_with_pda_marker(
                program@,
            ) ==> r is Ok,
    {
        match derive_with_seed(&payer, seed.as_str(), &program) {
            Some(derived) => Ok(
                Workflow {
                    stage: Stage::FeeQuery,
                    payer,
                    program,
                    seed,
                    derived,
                    required: 0,
                    rent_exempt_min: 0,
                },
            ),
            None => Err(WorkflowError::ConfigError),
        }
    }

    /// The first cluster request of a fresh run: the fee inputs for a record
    /// of the fixed size.
    pub fn initial_action(&self) -> (a: Action)
        requires
            self.stage is FeeQuery,
        ensures
            a == (Action::QueryFees { account_size: GREETING_SIZE }),
    {
        Action::QueryFees { account_size: GREETING_SIZE }
    }

    /// Consume the cluster's answer to the previous action and return the
    /// next one, exactly as the transition relation says. An answer that the
    /// current stage does not await is refused and changes nothing.
    pub fn step(&mut self, e: Event) -> (r: Option<Action>)
        ensures
            next_spec(*old(self), e) matches Some(p) ==> *final(self) == p.0 && r == Some(p.1),
            next_spec(*old(self), e) is None ==> *final(self) == *old(self) && r is None,
    {
        match (self.stage, e) {
            (Stage::FeeQuery, Event::FeeInputs { rent_exempt_min, lamports_per_signature }) => {
                match required_fees(rent_exempt_min, lamports_per_signature) {
                    Some(required) => {
                        self.stage = Stage::BalanceQuery;
                        self.required = required;
                        self.rent_exempt_min = rent_exempt_min;
                        Some(Action::QueryBalance)
                    },
                    None => {
                        self.stage = Stage::Failed;
                        Some(Action::Abort { error: WorkflowError::ExcessiveFees })
                    },
                }
            },
            (Stage::BalanceQuery, Event::Balance { lamports }) => {
                match airdrop_amount(lamports, self.required) {
                    None => {
                        self.stage = Stage::AccountLookup;
                        Some(Action::QueryAccount)
                    },
                    Some(deficit) => {
                        self.stage = Stage::AwaitAirdrop;
                        Some(Action::RequestAirdrop { lamports: deficit })
                    },
                }
            },
            (Stage::AwaitAirdrop, Event::AirdropOutcome { confirmed }) => {
                if confirmed {
                    self.stage = Stage::BalanceRecheck;
                    Some(Action::QueryBalance)
                } else {
                    self.stage = Stage::Failed;
                    Some(Action::Abort { error: WorkflowError::InsufficientFunds })
                }
            },
            (Stage::BalanceRecheck, Event::Balance { lamports }) => {
                if lamports >= self.required {
                    self.stage = Stage::AccountLookup;
                    Some(Action::QueryAccount)
                } else {
                    self.stage = Stage::Failed;
                    Some(Action::Abort { error: WorkflowError::InsufficientFunds })
                }
            },
            (Stage::AccountLookup, Event::AccountStatus { exists }) => {
                if exists {
                    self.stage = Stage::AwaitInvocation;
                    Some(Action::SubmitInvocation)
                } else {
                    self.stage = Stage::AwaitCreation;
                    Some(Action::SubmitCreation {
                        lamports: self.rent_exempt_min,
                        space: GREETING_SIZE as u64,
                    })
                }
            },
            (Stage::AwaitCreation, Event::SubmissionOutcome { accepted, reason }) => {
                if accepted {
                    self.stage = Stage::AwaitInvocation;
                    Some(Action::SubmitInvocation)
                } else {
                    self.stage = Stage::Failed;
                    Some(Action::Abort {
                        error: WorkflowError::SubmissionRejected { reason },
                    })
                }
            },
            (Stage::AwaitInvocation, Event::SubmissionOutcome { accepted, reason }) => {
                if accepted {
                    self.stage = Stage::StateFetch;
                    Some(Action::FetchState)
                } else {
                    self.stage = Stage::Failed;
                    Some(Action::Abort {
                        error: WorkflowError::SubmissionRejected { reason },
                    })
                }
            },
            (Stage::StateFetch, Event::AccountData { data }) => {
                match data {
                    None => {
                        self.stage = Stage::Failed;
                        Some(Action::Abort { error: WorkflowError::AccountNotFound })
                    },
                    Some(bytes) => {
                        match decode_greeting(bytes.as_slice()) {
                            Some(g) => {
                                self.stage = Stage::Done;
                                Some(Action::Report { counter: g.counter })
                            },
                            None => {
                                self.stage = Stage::Failed;
                                Some(Action::Abort { error: WorkflowError::DecodeError })
                            },
                        }
                    },
                }
            },
            _ => None,
        }
    }

    /// The derived data-account address this run operates on.
    pub fn derived_address(&self) -> (r: Address)
        ensures
            r == self.derived,
    {
        self.derived
    }

    /// The payer's address.
    pub fn payer_address(&self) -> (r: Address)
        ensures
            r == self.payer,
    {
        self.payer
    }

    /// The program's address.
    pub fn program_address(&self) -> (r: Address)
        ensures
            r == self.program,
    {
        self.program
    }

    /// The seed of the derivation.
    pub fn seed(&self) -> (r: &String)
        ensures
            r@ == self.seed@,
    {
        &self.seed
    }

    /// The single-byte opcode of the program's sole instruction: no payload
    /// beyond the opcode.
    pub fn instruction_data(&self) -> (r: Vec<u8>)
        ensures
            r@ == seq![0u8],
    {
        let mut v: Vec<u8> = Vec::new();
        v.push(0u8);
        proof {
            assert(v@ =~= seq![0u8]);
        }
        v
    }

    /// The account references of the invocation: exactly the derived account,
    /// mutable, not a signer.
    pub fn invocation_accounts(&self) -> (r: Vec<AccountRef>)
        ensures
            r@.len() == 1,
            r@[0] == (AccountRef { address: self.derived, writable: true, signer: false }),
    {
        let mut v: Vec<AccountRef> = Vec::new();
        v.push(AccountRef { address: self.derived, writable: true, signer: false });
        v
    }
}

/// A reference to an account carried by an instruction.
#[derive(Debug, PartialEq, Eq, Clone, Copy)]
pub struct AccountRef {
    /// The referenced address.
    pub address: Address,
    /// Whether the instruction may mutate the account.
    pub writable: bool,
    /// Whether the account must sign the transaction.
    pub signer: bool,
}

/// Where the signing identity comes from.
#[derive(Debug, PartialEq, Eq, Clone, Copy)]
pub enum IdentitySource {
    /// A keypair path is configured: load it.
    Configured,
    /// No keypair path is configured: generate a fresh ephemeral identity.
    Ephemeral,
}

/// Identity resolution, decided once at startup: an ephemeral identity is
/// used exactly when the configuration names no keypair path.
pub fn identity_source(keypair_path_empty: bool) -> (r: IdentitySource)
    ensures
        r is Ephemeral <==> keypair_path_empty,
{
    if keypair_path_empty {
        IdentitySource::Ephemeral
    } else {
        IdentitySource::Configured
    }
}

/// A non-fatal diagnostic about the program's deployment, printed to the
/// operator; provisioning proceeds regardless, because the data account can
/// legally exist before the program is deployed.
#[derive(Debug, PartialEq, Eq, Clone, Copy)]
pub enum ProgramDiagnostic {
    /// No program account and no compiled artifact: deploy the artifact.
    NeedsDeploy,
    /// No program account though an artifact is present: build and deploy.
    NeedsBuildAndDeploy,
    /// The program account exists but is not marked executable.
    NotExecutable,
}

/// Assess the program's deployment from the lookup of its account and the
/// presence of its compiled artifact. `None` means nothing to report: the
/// program account exists and is executable.
pub fn assess_program(account_found: bool, executable: bool, artifact_present: bool) -> (r:
    Option<ProgramDiagnostic>)
    ensures
        account_found && executable ==> r is None,
        account_found && !executable ==> r == Some(ProgramDiagnostic::NotExecutable),
        !account_found && !artifact_present ==> r == Some(ProgramDiagnostic::NeedsDeploy),
        !account_found && artifact_present ==> r == Some(ProgramDiagnostic::NeedsBuildAndDeploy),
{
    if !account_found {
        if !artifact_present {
            Some(ProgramDiagnostic::NeedsDeploy)
        } else {
            Some(ProgramDiagnostic::NeedsBuildAndDeploy)
        }
    } else if !executable {
        Some(ProgramDiagnostic::NotExecutable)
    } else {
        None
    }
}

/// Idempotence of provisioning: a creation transaction is proposed only by
/// the account lookup, and only when it found no account. In every run
/// against a cluster where the account already exists, the machine proposes
/// zero creations, however often the workflow is repeated.
pub proof fn lemma_creation_only_when_absent(w: Workflow, e: Event)
    ensures
        (next_spec(w, e) matches Some(p) && p.1 is SubmitCreation) ==> ({
            &&& w.stage is AccountLookup
            &&& e matches Event::AccountStatus { exists } && !exists
        }),
{
}

/// Idempotence of provisioning, positive form: when the lookup finds the
/// account, the run moves straight to the invocation — no creation, no
/// re-funding of the account.
pub proof fn lemma_existing_account_not_recreated(w: Workflow)
    requires
        w.stage is AccountLookup,
    ensures
        ({
            let p = next_spec(w, Event::AccountStatus { exists: true });
            p matches Some(q) && q.1 is SubmitInvocation && q.0.stage is AwaitInvocation
        }),
{
}

/// Funding monotonicity: the machine never requests a top-up when the
/// balance already covers the requirement, and when it does request one, the
/// amount is exactly the deficit.
pub proof fn lemma_funding_monotonic(w: Workflow, lamports: u64)
    requires
        w.stage is BalanceQuery,
    ensures
        lamports >= w.required ==> ({
            let p = next_spec(w, Event::Balance { lamports });
            p matches Some(q) && q.1 == Action::QueryAccount
        }),
        lamports < w.required ==> ({
            let p = next_spec(w, Event::Balance { lamports });
            p matches Some(q) && q.1 == (Action::RequestAirdrop {
                lamports: (w.required - lamports) as u64,
            })
        }),
{
}

/// A rejected invocation aborts the run with the cluster's reason verbatim
/// and never proceeds to the state read.
pub proof fn lemma_rejection_aborts(w: Workflow, reason: String)
    requires
        w.stage is AwaitInvocation,
    ensures
        ({
            let p = next_spec(w, Event::SubmissionOutcome { accepted: false, reason });
            p matches Some(q) && q.0.stage is Failed && q.1 == (Action::Abort {
                error: WorkflowError::SubmissionRejected { reason },
            })
        }),
{
}

} // verus!
