//! The PID-file model: the file's path, its decimal content, and the
//! construct/destroy lifecycle that guarantees at most one live holder.

use vstd::prelude::*;

verus! {

/// The path of the PID file for a directory and a logical name:
/// `"{directory}/{name}.pid"`.
pub open spec fn pid_path_view(directory: Seq<char>, name: Seq<char>) -> Seq<char> {
    directory + "/"@ + name + ".pid"@
}

/// Builds the PID file path `"{directory}/{name}.pid"`.
pub fn pid_file_path(directory: &str, name: &str) -> (r: String)
    ensures
        r@ == pid_path_view(directory@, name@),
{
    let mut s = String::from_str(directory);
    s.append("/");
    s.append(name);
    s.append(".pid");
    s
}

/// The decimal digit characters of `n`, as ASCII bytes, most significant
/// first, with no sign, no leading zero and no trailing terminator.
pub open spec fn decimal_digits(n: nat) -> Seq<u8>
    decreases n,
{
    if n < 10 {
        seq![(n + 48) as u8]
    } else {
        decimal_digits(n / 10).push((n % 10 + 48) as u8)
    }
}

/// The numeric value a sequence of ASCII digit bytes denotes.
pub open spec fn decimal_value(s: Seq<u8>) -> int
    decreases s.len(),
{
    if s.len() == 0 {
        0
    } else {
        decimal_value(s.drop_last()) * 10 + (s.last() - 48)
    }
}

/// The decimal digits of `n` are a faithful rendering: they are nothing
/// but ASCII digits, there is at least one of them, a positive number
/// does not begin with a zero digit, and reading them back yields `n`
/// again.
pub proof fn lemma_decimal_digits_value(n: nat)
    ensures
        decimal_value(decimal_digits(n)) == n,
        decimal_digits(n).len() >= 1,
        forall|i: int|
            0 <= i < decimal_digits(n).len() ==> 48 <= #[trigger] decimal_digits(n)[i] <= 57,
        n > 0 ==> decimal_digits(n)[0] != 48,
    decreases n,
{
    assert(decimal_value(Seq::<u8>::empty()) == 0);
    if n < 10 {
        let s = decimal_digits(n);
        assert(s =~= seq![(n + 48) as u8]);
        assert(s.drop_last() =~= Seq::<u8>::empty());
        assert(decimal_value(s) == decimal_value(s.drop_last()) * 10 + (s.last() - 48));
    } else {
        lemma_decimal_digits_value(n / 10);
        let prefix = decimal_digits(n / 10);
        let whole = decimal_digits(n);
        assert(whole =~= prefix.push((n % 10 + 48) as u8));
        assert(whole.drop_last() =~= prefix);
        assert(whole.last() == (n % 10 + 48) as u8);
        assert(decimal_value(whole) == decimal_value(prefix) * 10 + n % 10);
        vstd::arithmetic::div_mod::lemma_fundamental_div_mod(n as int, 10);
        assert(n / 10 >= 1) by (nonlinear_arith)
            requires
                n >= 10,
        ;
        assert(whole[0] == prefix[0]);
    }
}

/// Renders `n` in decimal as ASCII bytes, most significant digit first.
pub fn decimal_bytes(n: u32) -> (r: Vec<u8>)
    ensures
        r@ == decimal_digits(n as nat),
    decreases n,
{
    if n < 10 {
        let mut v: Vec<u8> = Vec::new();
        v.push((n as u8) + 48);
        proof {
            assert(v@ =~= decimal_digits(n as nat));
        }
        v
    } else {
        let mut v = decimal_bytes(n / 10);
        v.push((n % 10) as u8 + 48);
        proof {
            assert(v@ =~= decimal_digits(n as nat));
        }
        v
    }
}

/// A PID file's immutable attributes: the identifier of the process
/// that created it, and the resolved path `"{directory}/{name}.pid"`.
/// The open file handle itself, and the syscalls on it, belong to the
/// embedding program; this type carries everything the lifecycle
/// decides over.
pub struct Pid {
    /// The creating process's OS identifier, set once at construction.
    pub process_id: u32,
    /// The resolved path of the PID file.
    pub file_path: String,
}

impl Pid {
    /// Assembles the PID file's attributes for a directory, a logical
    /// name, and the current process's identifier, which the caller
    /// captures. The file path is `"{directory}/{name}.pid"`.
    pub fn new(directory: &str, name: &str, process_id: u32) -> (p: Pid)
        ensures
            p.process_id == process_id,
            p.file_path@ == pid_path_view(directory@, name@),
    {
        Pid { process_id, file_path: pid_file_path(directory, name) }
    }

    /// The file's entire content: the decimal text of `process_id`,
    /// with no trailing terminator.
    pub fn content(&self) -> (r: Vec<u8>)
        ensures
            r@ == decimal_digits(self.process_id as nat),
    {
        decimal_bytes(self.process_id)
    }
}

/// A construction step, in the order it is performed: create (or
/// truncate-create) the file, take the non-blocking exclusive lock on
/// it, write the decimal process identifier as its content.
#[derive(PartialEq, Eq, Structural, Clone, Copy, Debug)]
pub enum ConstructStep {
    Create,
    Lock,
    Write,
}

/// A destruction step, in the order it is performed: release the lock,
/// remove the file from the filesystem.
#[derive(PartialEq, Eq, Structural, Clone, Copy, Debug)]
pub enum DestroyStep {
    Unlock,
    Remove,
}

/// What a step's syscall reported: success, or a failure carrying the
/// OS error code.
#[derive(PartialEq, Eq, Structural, Clone, Copy, Debug)]
pub enum StepOutcome {
    Success,
    Failure { code: i32 },
}

/// The lifecycle of one PID file instance, driven by the caller who
/// performs each pending step's syscall and reports its outcome:
/// absent, constructing, held, destroying, destroyed. A failing
/// construction step leaves the lifecycle failed at that step, so no
/// half-built instance ever reaches the held state; leaving the held
/// state is one-way, and the destroyed state is reached only when both
/// destruction steps succeeded.
#[derive(PartialEq, Eq, Structural, Clone, Copy, Debug)]
pub enum Lifecycle {
    Absent,
    Constructing { step: ConstructStep },
    ConstructionFailed { step: ConstructStep, code: i32 },
    Held,
    Destroying { step: DestroyStep },
    DestroyFailed { step: DestroyStep, code: i32 },
    Destroyed,
}

/// Where a construction step's outcome takes the lifecycle: a failure
/// aborts construction at that step with the reported code, a success
/// moves to the next step, the last success reaches the held state.
/// States not under construction are unaffected.
pub open spec fn spec_construct_advance(s: Lifecycle, outcome: StepOutcome) -> Lifecycle {
    match s {
        Lifecycle::Constructing { step } => match outcome {
            StepOutcome::Failure { code } => Lifecycle::ConstructionFailed { step, code },
            StepOutcome::Success => match step {
                ConstructStep::Create => Lifecycle::Constructing { step: ConstructStep::Lock },
                ConstructStep::Lock => Lifecycle::Constructing { step: ConstructStep::Write },
                ConstructStep::Write => Lifecycle::Held,
            },
        },
        _ => s,
    }
}

/// Where a destruction step's outcome takes the lifecycle: a failure
/// leaves it failed at that step with the reported code, a successful
/// unlock moves on to removal, a successful removal reaches the
/// destroyed state. States not under destruction are unaffected.
pub open spec fn spec_destroy_advance(s: Lifecycle, outcome: StepOutcome) -> Lifecycle {
    match s {
        Lifecycle::Destroying { step } => match outcome {
            StepOutcome::Failure { code } => Lifecycle::DestroyFailed { step, code },
            StepOutcome::Success => match step {
                DestroyStep::Unlock => Lifecycle::Destroying { step: DestroyStep::Remove },
                DestroyStep::Remove => Lifecycle::Destroyed,
            },
        },
        _ => s,
    }
}

impl Lifecycle {
    /// Begins constructing an instance: the first pending step is the
    /// file creation.
    pub fn begin_construction() -> (s: Lifecycle)
        ensures
            s == (Lifecycle::Constructing { step: ConstructStep::Create }),
    {
        Lifecycle::Constructing { step: ConstructStep::Create }
    }

    /// Feeds the pending construction step's outcome into the
    /// lifecycle.
    pub fn construct_advance(self, outcome: StepOutcome) -> (s: Lifecycle)
        requires
            self is Constructing,
        ensures
            s == spec_construct_advance(self, outcome),
    {
        match self {
            Lifecycle::Constructing { step } => match outcome {
                StepOutcome::Failure { code } => Lifecycle::ConstructionFailed { step, code },
                StepOutcome::Success => match step {
                    ConstructStep::Create => Lifecycle::Constructing { step: ConstructStep::Lock },
                    ConstructStep::Lock => Lifecycle::Constructing { step: ConstructStep::Write },
                    ConstructStep::Write => Lifecycle::Held,
                },
            },
            _ => self,
        }
    }

    /// Begins destroying a held instance: the first pending step is the
    /// lock release. This is the only way out of the held state.
    pub fn begin_destruction(self) -> (s: Lifecycle)
        requires
            self is Held,
        ensures
            s == (Lifecycle::Destroying { step: DestroyStep::Unlock }),
    {
        Lifecycle::Destroying { step: DestroyStep::Unlock }
    }

    /// Feeds the pending destruction step's outcome into the lifecycle.
    pub fn destroy_advance(self, outcome: StepOutcome) -> (s: Lifecycle)
        requires
            self is Destroying,
        ensures
            s == spec_destroy_advance(self, outcome),
    {
        match self {
            Lifecycle::Destroying { step } => match outcome {
                StepOutcome::Failure { code } => Lifecycle::DestroyFailed { step, code },
                StepOutcome::Success => match step {
                    DestroyStep::Unlock => Lifecycle::Destroying { step: DestroyStep::Remove },
                    DestroyStep::Remove => Lifecycle::Destroyed,
                },
            },
            _ => self,
        }
    }
}

/// The lifecycle state a full construction attempt ends in, given the
/// outcomes of its create, lock, and write steps.
pub open spec fn spec_construction_result(
    create: StepOutcome,
    lock: StepOutcome,
    write: StepOutcome,
) -> Lifecycle {
    spec_construct_advance(
        spec_construct_advance(
            spec_construct_advance(Lifecycle::Constructing { step: ConstructStep::Create }, create),
            lock,
        ),
        write,
    )
}

/// The lifecycle state a full destruction attempt ends in, given the
/// outcomes of its unlock and remove steps.
pub open spec fn spec_destruction_result(unlock: StepOutcome, remove: StepOutcome) -> Lifecycle {
    spec_destroy_advance(
        spec_destroy_advance(Lifecycle::Destroying { step: DestroyStep::Unlock }, unlock),
        remove,
    )
}

/// Construction is all-or-nothing: it reaches the held state exactly
/// when every step succeeded, and otherwise ends failed at the first
/// failing step, carrying that step's OS error code. In particular, a
/// contended non-blocking exclusive lock — the second of two racing
/// constructions for the same path — fails the whole construction with
/// the contention code, and nothing the caller could observe as held
/// ever comes out of it.
pub proof fn lemma_construction_all_or_nothing(
    create: StepOutcome,
    lock: StepOutcome,
    write: StepOutcome,
)
    ensures
        spec_construction_result(create, lock, write) == Lifecycle::Held <==> (create
            is Success && lock is Success && write is Success),
        create matches StepOutcome::Failure { code } ==> spec_construction_result(
            create,
            lock,
            write,
        ) == (Lifecycle::ConstructionFailed { step: ConstructStep::Create, code }),
        create is Success ==> (lock matches StepOutcome::Failure { code }
            ==> spec_construction_result(create, lock, write) == (
        Lifecycle::ConstructionFailed { step: ConstructStep::Lock, code })),
        create is Success && lock is Success ==> (write matches StepOutcome::Failure { code }
            ==> spec_construction_result(create, lock, write) == (
        Lifecycle::ConstructionFailed { step: ConstructStep::Write, code })),
{
}

/// Destruction releases the lock before removing the file, and the
/// destroyed state is reached exactly when both steps succeeded: a
/// lifecycle that reports itself destroyed saw the file removal
/// succeed, so the file no longer exists at the path. A failure leaves
/// the lifecycle failed at the failing step with its code.
pub proof fn lemma_destruction_complete(unlock: StepOutcome, remove: StepOutcome)
    ensures
        spec_destruction_result(unlock, remove) == Lifecycle::Destroyed <==> (unlock
            is Success && remove is Success),
        unlock matches StepOutcome::Failure { code } ==> spec_destruction_result(unlock, remove)
            == (Lifecycle::DestroyFailed { step: DestroyStep::Unlock, code }),
        unlock is Success ==> (remove matches StepOutcome::Failure { code }
            ==> spec_destruction_result(unlock, remove) == (
        Lifecycle::DestroyFailed { step: DestroyStep::Remove, code })),
{
}

/// Round trip: construct, destroy, construct again. The model carries
/// nothing from one instance to the next — a second construction
/// begins from the same initial state as the first, so when the first
/// instance was fully destroyed and every step of the second attempt
/// succeeds, the second attempt reaches the held state just as the
/// first one did.
pub proof fn lemma_round_trip(
    first: (StepOutcome, StepOutcome, StepOutcome),
    unlock: StepOutcome,
    remove: StepOutcome,
    second: (StepOutcome, StepOutcome, StepOutcome),
)
    requires
        first.0 is Success && first.1 is Success && first.2 is Success,
        unlock is Success,
        remove is Success,
        second.0 is Success && second.1 is Success && second.2 is Success,
    ensures
        spec_construction_result(first.0, first.1, first.2) == Lifecycle::Held,
        spec_destruction_result(unlock, remove) == Lifecycle::Destroyed,
        spec_construction_result(second.0, second.1, second.2) == Lifecycle::Held,
{
}

} // verus!
