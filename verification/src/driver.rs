//! The three drivers: how each configures the engine, what it asks of its
//! guest, the steps it goes through and the ways in which it can fail.

use vstd::prelude::*;
use vstd::string::*;
use crate::guest::{GuestFunction, Signature, ValueKind};
use crate::timing::ClockReference;

verus! {

/// The compiler that turns a module into machine code.
#[derive(Clone, Copy, Debug, PartialEq, Eq, Structural)]
pub enum Compiler {
    /// Whichever compiler the engine prefers.
    Auto,
    /// The optimizing compiler.
    Cranelift,
    /// The baseline compiler.
    Winch,
}

impl Compiler {
    /// The compiler that an engine holds once it is told to use this one.
    /// Built with the optimizing compiler, as the engine is for this
    /// library, it takes that one where the choice is left to it.
    pub open spec fn resolved(self) -> Compiler {
        match self {
            Compiler::Auto => Compiler::Cranelift,
            chosen => chosen,
        }
    }
}

/// The compiler that an engine holds when its configuration was told
/// `named`, or was told nothing: left alone, the configuration starts with
/// the engine's own choice.
pub open spec fn compiler_in_use(named: Option<Compiler>) -> Compiler {
    match named {
        None => Compiler::Auto.resolved(),
        Some(compiler) => compiler.resolved(),
    }
}

/// How far the optimizing compiler goes.
#[derive(Clone, Copy, Debug, PartialEq, Eq, Structural)]
pub enum Optimization {
    /// No optimization.
    Unoptimized,
    /// The fastest code.
    Speed,
    /// Fast code that is also kept small.
    SpeedAndSize,
}

/// What a driver sets on the engine's configuration; what it leaves unset
/// keeps the engine's default.
#[derive(Clone, Copy, Debug, PartialEq, Eq, Structural)]
pub struct EngineSettings {
    /// The compiler, if the driver names one.
    pub compiler: Option<Compiler>,
    /// The optimization level, if the driver names one.
    pub optimization: Option<Optimization>,
}

/// What the host grants to a run, whatever the driver.
#[derive(Clone, Copy, Debug, PartialEq, Eq, Structural)]
pub struct HostOptions {
    /// What the clock that the host offers to the guest counts from. A
    /// driver that offers no clock does not look at it.
    pub clock: ClockReference,
    /// The address space that the engine reserves for each linear memory of
    /// the guest, in bytes. Unset, the engine keeps its default, which on a
    /// 64-bit host is 4 GiB and more than some hosts can spare.
    pub memory_reservation: Option<u64>,
}

impl HostOptions {
    /// The options of a plain run: the clock counts from the driver's start,
    /// and the engine keeps its default reservation.
    pub fn standard() -> (options: HostOptions)
        ensures
            options == (HostOptions {
                clock: ClockReference::DriverStart,
                memory_reservation: None,
            }),
    {
        HostOptions { clock: ClockReference::DriverStart, memory_reservation: None }
    }
}

/// One of the three drivers.
#[derive(Clone, Copy, Debug, PartialEq, Eq, Structural)]
pub enum Driver {
    /// Calls `add(i, i)` for `i` from 0 to 9 in a module that imports
    /// nothing, and reports each call's time and the last result.
    FileAdd,
    /// Calls `add(1, 2)` one hundred times in a module that may import the
    /// host's clock, and reports each call's time in nanoseconds.
    EmbeddedAdd,
    /// Resolves `allocate`, `deallocate` and the memory of a module that may
    /// import the host's clock; on request, times a thousand rounds of
    /// allocating and releasing 128 bytes.
    AllocatorProbe,
}

/// The value that every driver attaches to its store. Nothing reads it.
pub const STORE_DATA: i32 = 1024;

/// The number of bytes that the allocator probe asks for in each round.
pub const PROBE_ALLOCATION: i32 = 128;

/// The namespace under which the host offers its clock.
pub open spec fn clock_namespace() -> Seq<char> {
    "time"@
}

/// The name under which the host offers its clock.
pub open spec fn clock_name() -> Seq<char> {
    "now"@
}

/// The namespace under which the host offers its clock.
pub fn clock_namespace_str() -> (namespace: &'static str)
    ensures
        namespace@ == clock_namespace(),
{
    "time"
}

/// The name under which the host offers its clock.
pub fn clock_name_str() -> (name: &'static str)
    ensures
        name@ == clock_name(),
{
    "now"
}

impl Driver {
    /// What this driver sets on the engine's configuration.
    pub open spec fn settings(self) -> EngineSettings {
        match self {
            Driver::FileAdd => EngineSettings {
                compiler: Some(Compiler::Cranelift),
                optimization: Some(Optimization::SpeedAndSize),
            },
            Driver::EmbeddedAdd => EngineSettings { compiler: None, optimization: None },
            Driver::AllocatorProbe => EngineSettings {
                compiler: Some(Compiler::Cranelift),
                optimization: None,
            },
        }
    }

    /// Whether this driver offers the host's clock to its guest, resolving
    /// the guest's imports through a linker. A driver that does not
    /// instantiates a guest only if it imports nothing.
    pub open spec fn offers_clock(self) -> bool {
        self != Driver::FileAdd
    }

    /// The number of rounds in this driver's loop.
    pub open spec fn rounds(self) -> nat {
        match self {
            Driver::FileAdd => 10,
            Driver::EmbeddedAdd => 100,
            Driver::AllocatorProbe => 1000,
        }
    }

    /// Whether this driver resolves `function` in its guest at startup.
    pub open spec fn needs(self, function: GuestFunction) -> bool {
        match self {
            Driver::FileAdd => function == GuestFunction::Add,
            Driver::EmbeddedAdd => function == GuestFunction::Add,
            Driver::AllocatorProbe => function != GuestFunction::Add,
        }
    }

    /// Whether this driver resolves the guest's memory at startup.
    pub open spec fn needs_memory(self) -> bool {
        self == Driver::AllocatorProbe
    }

    /// Whether this driver calls `add`.
    pub open spec fn adds(self) -> bool {
        self != Driver::AllocatorProbe
    }

    /// The arguments that an adding driver hands to `add` in round `round`,
    /// counted from 0. The allocator probe calls no `add` and has none.
    pub open spec fn add_arguments(self, round: int) -> (i32, i32)
        recommends
            self.adds(),
    {
        match self {
            Driver::FileAdd => (round as i32, round as i32),
            Driver::EmbeddedAdd => (1, 2),
            Driver::AllocatorProbe => arbitrary(),
        }
    }

    /// Whether this driver reports the value that its last call returned.
    pub open spec fn reports_result(self) -> bool {
        self == Driver::FileAdd
    }

    /// What this driver sets on the engine's configuration.
    pub fn engine_settings(self) -> (settings: EngineSettings)
        ensures
            settings == self.settings(),
    {
        match self {
            Driver::FileAdd => EngineSettings {
                compiler: Some(Compiler::Cranelift),
                optimization: Some(Optimization::SpeedAndSize),
            },
            Driver::EmbeddedAdd => EngineSettings { compiler: None, optimization: None },
            Driver::AllocatorProbe => EngineSettings {
                compiler: Some(Compiler::Cranelift),
                optimization: None,
            },
        }
    }

    /// Whether this driver offers the host's clock to its guest.
    pub fn links_clock(self) -> (offered: bool)
        ensures
            offered == self.offers_clock(),
    {
        match self {
            Driver::FileAdd => false,
            _ => true,
        }
    }

    /// The number of rounds in this driver's loop.
    pub fn round_count(self) -> (n: usize)
        ensures
            n == self.rounds(),
    {
        match self {
            Driver::FileAdd => 10,
            Driver::EmbeddedAdd => 100,
            Driver::AllocatorProbe => 1000,
        }
    }

    /// The arguments that an adding driver hands to `add` in round `round`.
    pub fn arguments_for(self, round: usize) -> (pair: (i32, i32))
        requires
            self.adds(),
            round < self.rounds(),
        ensures
            pair == self.add_arguments(round as int),
    {
        match self {
            Driver::FileAdd => (round as i32, round as i32),
            _ => (1, 2),
        }
    }

    /// Whether this driver reports the value that its last call returned.
    pub fn reports_a_result(self) -> (reports: bool)
        ensures
            reports == self.reports_result(),
    {
        match self {
            Driver::FileAdd => true,
            _ => false,
        }
    }

    /// Whether `found` holds every export that this driver needs: each
    /// needed function under its required signature, and the memory if the
    /// driver needs it.
    pub open spec fn satisfied_by(self, found: FoundExports) -> bool {
        &&& forall|function: GuestFunction| #[trigger]
            self.needs(function) ==> function_verdict(function, found.function(function)) is Ok
        &&& self.needs_memory() ==> found.memory
    }

    /// The step that follows `stage` in this driver's run, when nothing
    /// fails. A driver that offers no clock makes no linker.
    pub open spec fn next_stage(self, stage: Stage) -> Stage {
        match stage {
            Stage::Init => Stage::EngineReady,
            Stage::EngineReady => Stage::ModuleReady,
            Stage::ModuleReady => if self.offers_clock() {
                Stage::LinkerReady
            } else {
                Stage::InstanceReady
            },
            Stage::LinkerReady => Stage::InstanceReady,
            Stage::InstanceReady => Stage::Running,
            Stage::Running => Stage::Exited,
            Stage::Exited => Stage::Exited,
        }
    }

    /// Whether a run of this driver can end in `failure`. No run ends in a
    /// result of the wrong kind: a driver calls only functions whose
    /// signature it has accepted, and those return 32-bit integers.
    pub open spec fn can_fail_with(self, failure: Failure) -> bool {
        match failure {
            Failure::EngineConstruction => true,
            Failure::ModuleDecode => true,
            Failure::LinkerRegistration => self.offers_clock(),
            Failure::Instantiation => true,
            Failure::MissingFunction(function) => self.needs(function),
            Failure::WrongSignature(function) => self.needs(function),
            Failure::MissingMemory => self.needs_memory(),
            Failure::Invocation(function) => self.needs(function),
            Failure::ResultType(_) => false,
        }
    }
}

/// How far a run has come.
#[derive(Clone, Copy, Debug, PartialEq, Eq, Structural)]
pub enum Stage {
    /// Nothing is made yet.
    Init,
    /// The engine is made.
    EngineReady,
    /// The module is decoded and compiled.
    ModuleReady,
    /// The linker holds the host's clock.
    LinkerReady,
    /// The module is instantiated.
    InstanceReady,
    /// The exports are resolved; the loop runs.
    Running,
    /// The loop is over.
    Exited,
}

impl Stage {
    /// The place of this stage in a run, from the first (0) on.
    pub open spec fn position(self) -> nat {
        match self {
            Stage::Init => 0,
            Stage::EngineReady => 1,
            Stage::ModuleReady => 2,
            Stage::LinkerReady => 3,
            Stage::InstanceReady => 4,
            Stage::Running => 5,
            Stage::Exited => 6,
        }
    }

    /// Whether this stage lies before the loop.
    pub open spec fn is_startup(self) -> bool {
        self.position() < Stage::Running.position()
    }
}

/// The step at which a run stopped. Every failure ends the run.
#[derive(Clone, Copy, Debug, PartialEq, Eq, Structural)]
pub enum Failure {
    /// The engine refused the configuration.
    EngineConstruction,
    /// The bytes are no valid module, or could not be compiled.
    ModuleDecode,
    /// The host's clock could not be entered into the linker.
    LinkerRegistration,
    /// An import could not be resolved, or the start function failed.
    Instantiation,
    /// The guest exports no function of this name.
    MissingFunction(GuestFunction),
    /// The guest exports the function with another signature.
    WrongSignature(GuestFunction),
    /// The guest exports no memory named `memory`.
    MissingMemory,
    /// A call of the function trapped or was refused.
    Invocation(GuestFunction),
    /// The function returned a value that is no 32-bit integer. A function
    /// of the required signature does not.
    ResultType(GuestFunction),
}

impl Failure {
    /// The stage in which a run was when this failure stopped it.
    pub open spec fn stage(self, driver: Driver) -> Stage {
        match self {
            Failure::EngineConstruction => Stage::Init,
            Failure::ModuleDecode => Stage::EngineReady,
            Failure::LinkerRegistration => Stage::ModuleReady,
            Failure::Instantiation => if driver.offers_clock() {
                Stage::LinkerReady
            } else {
                Stage::ModuleReady
            },
            Failure::MissingFunction(_) => Stage::InstanceReady,
            Failure::WrongSignature(_) => Stage::InstanceReady,
            Failure::MissingMemory => Stage::InstanceReady,
            Failure::Invocation(_) => Stage::Running,
            Failure::ResultType(_) => Stage::Running,
        }
    }

    /// Whether this failure stops a run before its loop.
    pub open spec fn at_startup(self) -> bool {
        !(self is Invocation || self is ResultType)
    }

    /// The words that describe this failure.
    pub open spec fn description(self) -> Seq<char> {
        match self {
            Failure::EngineConstruction => "engine construction failed"@,
            Failure::ModuleDecode => "module could not be decoded"@,
            Failure::LinkerRegistration => "host clock could not be registered"@,
            Failure::Instantiation => "module could not be instantiated"@,
            Failure::MissingFunction(function) => "missing function export: "@
                + function.export_name(),
            Failure::WrongSignature(function) => "wrong signature of function export: "@
                + function.export_name(),
            Failure::MissingMemory => "missing memory export: memory"@,
            Failure::Invocation(function) => "call failed: "@ + function.export_name(),
            Failure::ResultType(function) => "result is no i32: "@ + function.export_name(),
        }
    }

    /// The stage in which a run of `driver` was when this failure stopped it.
    pub fn stage_in(self, driver: Driver) -> (stage: Stage)
        ensures
            stage == self.stage(driver),
    {
        match self {
            Failure::EngineConstruction => Stage::Init,
            Failure::ModuleDecode => Stage::EngineReady,
            Failure::LinkerRegistration => Stage::ModuleReady,
            Failure::Instantiation => if driver.links_clock() {
                Stage::LinkerReady
            } else {
                Stage::ModuleReady
            },
            Failure::MissingFunction(_) => Stage::InstanceReady,
            Failure::WrongSignature(_) => Stage::InstanceReady,
            Failure::MissingMemory => Stage::InstanceReady,
            Failure::Invocation(_) => Stage::Running,
            Failure::ResultType(_) => Stage::Running,
        }
    }

    /// Whether this failure stops a run before its loop.
    pub fn is_startup(self) -> (startup: bool)
        ensures
            startup == self.at_startup(),
    {
        match self {
            Failure::Invocation(_) => false,
            Failure::ResultType(_) => false,
            _ => true,
        }
    }

    /// The words that describe this failure, for a diagnostic.
    pub fn describe(self) -> (text: String)
        ensures
            text@ == self.description(),
    {
        match self {
            Failure::EngineConstruction => String::from_str("engine construction failed"),
            Failure::ModuleDecode => String::from_str("module could not be decoded"),
            Failure::LinkerRegistration => String::from_str("host clock could not be registered"),
            Failure::Instantiation => String::from_str("module could not be instantiated"),
            Failure::MissingFunction(function) => {
                let mut text = String::from_str("missing function export: ");
                text.append(function.name());
                text
            },
            Failure::WrongSignature(function) => {
                let mut text = String::from_str("wrong signature of function export: ");
                text.append(function.name());
                text
            },
            Failure::MissingMemory => String::from_str("missing memory export: memory"),
            Failure::Invocation(function) => {
                let mut text = String::from_str("call failed: ");
                text.append(function.name());
                text
            },
            Failure::ResultType(function) => {
                let mut text = String::from_str("result is no i32: ");
                text.append(function.name());
                text
            },
        }
    }
}

/// What the lookup of a function export comes to: the function is accepted
/// if the guest exports it with exactly the required kinds of parameters and
/// results, it is missing if the guest exports no function of that name, and
/// it has the wrong signature otherwise.
pub open spec fn function_verdict(
    function: GuestFunction,
    found: Option<(Seq<ValueKind>, Seq<ValueKind>)>,
) -> Result<(), Failure> {
    match found {
        None => Err(Failure::MissingFunction(function)),
        Some(signature) => if function.accepts(signature) {
            Ok(())
        } else {
            Err(Failure::WrongSignature(function))
        },
    }
}

/// The signature that a lookup found, as plain sequences.
pub open spec fn found_view(found: Option<Signature>) -> Option<(Seq<ValueKind>, Seq<ValueKind>)> {
    match found {
        None => None,
        Some(signature) => Some(signature@),
    }
}

/// What the lookups of a run found among the exports of its guest. A lookup
/// that the run did not make counts as one that found nothing.
#[derive(Clone, Debug)]
pub struct FoundExports {
    /// The signature of the function exported as `add`.
    pub add: Option<Signature>,
    /// The signature of the function exported as `allocate`.
    pub allocate: Option<Signature>,
    /// The signature of the function exported as `deallocate`.
    pub deallocate: Option<Signature>,
    /// Whether a memory is exported as `memory`.
    pub memory: bool,
}

impl FoundExports {
    /// The signature found for `function`, as plain sequences.
    pub open spec fn function(self, function: GuestFunction) -> Option<
        (Seq<ValueKind>, Seq<ValueKind>),
    > {
        match function {
            GuestFunction::Add => found_view(self.add),
            GuestFunction::Allocate => found_view(self.allocate),
            GuestFunction::Deallocate => found_view(self.deallocate),
        }
    }

    /// Whether `failure`, if it is the failure of a lookup, is what this
    /// record shows: a missing function or memory was not found, and a
    /// function of the wrong signature was found with a signature that is
    /// not the required one.
    pub open spec fn explains(self, failure: Failure) -> bool {
        match failure {
            Failure::MissingFunction(function) => self.function(function) is None,
            Failure::WrongSignature(function) => self.function(function) matches Some(signature)
                && !function.accepts(signature),
            Failure::MissingMemory => !self.memory,
            _ => true,
        }
    }

    /// The record of a run that has made no lookup yet.
    pub fn nothing() -> (found: FoundExports)
        ensures
            found.add is None,
            found.allocate is None,
            found.deallocate is None,
            !found.memory,
    {
        FoundExports { add: None, allocate: None, deallocate: None, memory: false }
    }
}

/// Judges the lookup of `function`: `found` is the signature under which the
/// guest exports it, or nothing if it exports no function of that name.
pub fn check_function(function: GuestFunction, found: &Option<Signature>) -> (verdict: Result<
    (),
    Failure,
>)
    ensures
        verdict == function_verdict(function, found_view(*found)),
{
    match found {
        None => Err(Failure::MissingFunction(function)),
        Some(signature) => {
            if function.matches(signature) {
                Ok(())
            } else {
                Err(Failure::WrongSignature(function))
            }
        },
    }
}

/// Judges the lookup of the guest's memory: `found` says whether the guest
/// exports a memory named `memory`.
pub fn check_memory(found: bool) -> (verdict: Result<(), Failure>)
    ensures
        verdict == if found {
            Ok::<(), Failure>(())
        } else {
            Err::<(), Failure>(Failure::MissingMemory)
        },
{
    if found {
        Ok(())
    } else {
        Err(Failure::MissingMemory)
    }
}

/// What a result slot comes to: the 32-bit integer in it, or the failure of
/// `function` to return one.
pub open spec fn slot_verdict(function: GuestFunction, slot: Option<i32>) -> Result<i32, Failure> {
    match slot {
        Some(number) => Ok(number),
        None => Err(Failure::ResultType(function)),
    }
}

/// Judges what a call returned in its one result slot: `slot` is the 32-bit
/// integer in it, or nothing if the slot holds a value of another kind.
pub fn expect_i32(function: GuestFunction, slot: Option<i32>) -> (value: Result<i32, Failure>)
    ensures
        value == slot_verdict(function, slot),
{
    match slot {
        Some(number) => Ok(number),
        None => Err(Failure::ResultType(function)),
    }
}

/// What came of one call of a guest function.
#[derive(Clone, Copy, Debug, PartialEq, Eq, Structural)]
pub enum CallOutcome {
    /// The call trapped or was refused.
    Failed,
    /// The call returned. With it comes the 32-bit integer in its first
    /// result slot, or nothing where it has no slot or the slot holds a
    /// value of another kind.
    Returned(Option<i32>),
}

/// What the call of `function` comes to, if the function is to return a
/// 32-bit integer: the integer, the failure of the call, or the failure to
/// return one.
pub open spec fn call_verdict(function: GuestFunction, outcome: CallOutcome) -> Result<
    i32,
    Failure,
> {
    match outcome {
        CallOutcome::Failed => Err(Failure::Invocation(function)),
        CallOutcome::Returned(slot) => slot_verdict(function, slot),
    }
}

/// Judges the call of `allocate`: the pointer that it returned, or the
/// failure that stops the run.
pub fn allocated_pointer(outcome: CallOutcome) -> (pointer: Result<i32, Failure>)
    ensures
        pointer == call_verdict(GuestFunction::Allocate, outcome),
{
    match outcome {
        CallOutcome::Failed => Err(Failure::Invocation(GuestFunction::Allocate)),
        CallOutcome::Returned(slot) => expect_i32(GuestFunction::Allocate, slot),
    }
}

/// The arguments of a call of `add`: `left`, then `right`.
pub fn add_call_arguments(left: i32, right: i32) -> (args: Vec<i32>)
    ensures
        args@ == seq![left, right],
{
    let mut args: Vec<i32> = Vec::new();
    args.push(left);
    args.push(right);
    assert(args@ =~= seq![left, right]);
    args
}

/// The arguments of a call of `allocate` by the allocator probe: the number
/// of bytes that it asks for in each round.
pub fn allocate_call_arguments() -> (args: Vec<i32>)
    ensures
        args@ == seq![PROBE_ALLOCATION],
{
    let mut args: Vec<i32> = Vec::new();
    args.push(PROBE_ALLOCATION);
    assert(args@ =~= seq![PROBE_ALLOCATION]);
    args
}

/// The arguments of a call of `deallocate`: the pointer that `allocate`
/// returned.
pub fn deallocate_call_arguments(pointer: i32) -> (args: Vec<i32>)
    ensures
        args@ == seq![pointer],
{
    let mut args: Vec<i32> = Vec::new();
    args.push(pointer);
    assert(args@ =~= seq![pointer]);
    args
}

/// A guest is accepted only with every export that its driver needs: if the
/// lookups satisfy the driver, the guest exports each needed function with
/// exactly the parameters and results that the driver's calls hand over and
/// read, and the memory if the driver needs it. A lookup that is judged
/// to fail is a failure at startup, one that the driver can meet and that the
/// lookups explain, and the driver is not satisfied.
pub proof fn lemma_accepted_guest_has_required_exports(
    driver: Driver,
    found: FoundExports,
    function: GuestFunction,
)
    requires
        driver.needs(function),
    ensures
        driver.satisfied_by(found) ==> found.function(function) == Some(
            (function.params(), function.results()),
        ),
        driver.satisfied_by(found) && driver.needs_memory() ==> found.memory,
        function_verdict(function, found.function(function)) matches Err(failure) ==> {
            &&& failure.at_startup()
            &&& driver.can_fail_with(failure)
            &&& found.explains(failure)
            &&& !driver.satisfied_by(found)
        },
        driver.needs_memory() && !found.memory ==> {
            &&& Failure::MissingMemory.at_startup()
            &&& driver.can_fail_with(Failure::MissingMemory)
            &&& found.explains(Failure::MissingMemory)
            &&& !driver.satisfied_by(found)
        },
{
    if driver.satisfied_by(found) {
        let signature = found.function(function)->Some_0;
        assert(function_verdict(function, found.function(function)) is Ok);
        assert(signature.0 == function.params());
        assert(signature.1 == function.results());
    }
}

/// Every driver's engine compiles with the optimizing compiler: two drivers
/// name it, and the third leaves the choice to an engine that makes the same
/// one.
pub proof fn lemma_every_driver_compiles_alike(driver: Driver)
    ensures
        compiler_in_use(driver.settings().compiler) == Compiler::Cranelift,
{
}

/// Every failure stops a run at a stage before its end, and the failures at
/// startup are those that stop it before the loop.
pub proof fn lemma_failure_stage(driver: Driver, failure: Failure)
    ensures
        failure.stage(driver) != Stage::Exited,
        failure.at_startup() <==> failure.stage(driver).is_startup(),
{
}

/// From its first stage a run reaches its end in six steps with a linker and
/// in five without, and each step moves it forward.
pub proof fn lemma_stages_in_order(driver: Driver, stage: Stage)
    ensures
        stage != Stage::Exited ==> driver.next_stage(stage).position() > stage.position(),
        driver.offers_clock() ==> driver.next_stage(
            driver.next_stage(
                driver.next_stage(
                    driver.next_stage(driver.next_stage(driver.next_stage(Stage::Init))),
                ),
            ),
        ) == Stage::Exited,
        !driver.offers_clock() ==> driver.next_stage(
            driver.next_stage(driver.next_stage(driver.next_stage(driver.next_stage(Stage::Init)))),
        ) == Stage::Exited,
{
}

} // verus!
