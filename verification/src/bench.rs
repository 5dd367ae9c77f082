//! The runs of the three drivers: startup, the timing loop, and the lines
//! that report what was measured.

use vstd::prelude::*;
use crate::driver::{
    add_call_arguments,
    allocate_call_arguments,
    allocated_pointer,
    call_verdict,
    check_function,
    check_memory,
    clock_name_str,
    clock_namespace_str,
    compiler_in_use,
    deallocate_call_arguments,
    expect_i32,
    found_view,
    slot_verdict,
    CallOutcome,
    Driver,
    EngineSettings,
    Failure,
    FoundExports,
    HostOptions,
    Stage,
    PROBE_ALLOCATION,
    STORE_DATA,
};
use crate::engine::{
    config_memory_reservation,
    config_new,
    config_opt_level,
    config_strategy,
    engine_named,
    engine_new,
    exported_func,
    func_call,
    func_kinds,
    func_owner,
    func_signature,
    guest_export,
    guest_memory,
    instance_get_func,
    instance_get_memory,
    instance_new,
    instance_owner,
    instance_source,
    is_module,
    linker_func_wrap,
    linker_instantiate,
    linker_new,
    memory_data_size,
    memory_owner,
    module_new,
    store_key,
    store_new,
};
use crate::guest::{memory_export_name, memory_name, GuestFunction, Signature};
use crate::lines::{
    data_line,
    data_text,
    result_line,
    result_text,
    time_line,
    time_taken_line,
    time_taken_text,
    time_text,
};
use crate::timing::{elapsed_since, instant_now, wrapped_i64, Elapsed, HostClock};

verus! {

/// One timed call of `add`.
#[derive(Clone, Copy, Debug)]
pub struct AddSample {
    /// The first argument of the call.
    pub left: i32,
    /// The second argument of the call.
    pub right: i32,
    /// The 32-bit integer that the call returned, or nothing if it returned
    /// a value of another kind.
    pub returned: Option<i32>,
    /// How long the call took.
    pub elapsed: Elapsed,
}

/// What a run of an adding driver leaves behind: what its lookups found, one
/// sample for each call that returned, in the order of the calls, and the
/// failure that stopped the run, if one did.
#[derive(Clone, Debug)]
pub struct AddRun {
    /// What the lookups found among the guest's exports.
    pub exports: FoundExports,
    /// The calls that returned, in order.
    pub samples: Vec<AddSample>,
    /// The failure that stopped the run; none if it ran to its end.
    pub failure: Option<Failure>,
}

/// One timed round of allocating and releasing.
#[derive(Clone, Copy, Debug)]
pub struct ProbeSample {
    /// The number of bytes that `allocate` was asked for.
    pub size: i32,
    /// The pointer that `allocate` returned and `deallocate` was given.
    pub pointer: i32,
    /// The size of the guest's memory after the round, in bytes.
    pub memory_bytes: usize,
    /// How long the round took.
    pub elapsed: Elapsed,
}

/// What a run of the allocator probe leaves behind: what its lookups found,
/// one sample for each round that finished, in order, and the failure that
/// stopped the run, if one did.
#[derive(Clone, Debug)]
pub struct ProbeRun {
    /// What the lookups found among the guest's exports.
    pub exports: FoundExports,
    /// The rounds that finished, in order.
    pub samples: Vec<ProbeSample>,
    /// The failure that stopped the run; none if it ran to its end.
    pub failure: Option<Failure>,
}

/// What holds of the end of every run of `driver` that did `done` of
/// `rounds` rounds. A run without failure did every round. A failure is one
/// that the driver can meet and that the lookups explain; at startup it
/// leaves no round done; in the loop it leaves a round undone. A run that
/// got past startup found every export that the driver needs.
pub open spec fn ending_fits(
    driver: Driver,
    exports: FoundExports,
    failure: Option<Failure>,
    done: nat,
    rounds: nat,
) -> bool {
    &&& done <= rounds
    &&& match failure {
        None => done == rounds && driver.satisfied_by(exports),
        Some(failure) => {
            &&& driver.can_fail_with(failure)
            &&& exports.explains(failure)
            &&& failure.at_startup() ==> done == 0
            &&& !failure.at_startup() ==> driver.satisfied_by(exports) && done < rounds
        },
    }
}

/// Whether what a run of `driver` says of its guest is what the bytes `wasm`
/// hold. Every signature that a lookup found is the one under which the
/// module exports that function, and a memory that was found is exported. A
/// function or memory that was missed is not exported, and a function of the
/// wrong signature is exported under a signature that is not the required
/// one. A run that got past startup ran a module that exports every function
/// that the driver needs under the required signature, and the memory if
/// the driver needs it. A run that got past decoding was given the binary
/// encoding of a valid module.
pub open spec fn guest_agrees(
    driver: Driver,
    wasm: Seq<u8>,
    exports: FoundExports,
    failure: Option<Failure>,
) -> bool {
    &&& forall|function: GuestFunction|
        (#[trigger] exports.function(function)) matches Some(signature) ==> guest_export(
            wasm,
            function.export_name(),
        ) == Some(signature)
    &&& exports.memory ==> guest_memory(wasm, memory_export_name())
    &&& failure matches Some(Failure::MissingFunction(function)) ==> guest_export(
        wasm,
        function.export_name(),
    ) is None
    &&& failure matches Some(Failure::WrongSignature(function)) ==> (guest_export(
        wasm,
        function.export_name(),
    ) matches Some(signature) && !function.accepts(signature))
    &&& failure == Some(Failure::MissingMemory) ==> !guest_memory(wasm, memory_export_name())
    &&& past_startup(failure) ==> {
        &&& forall|function: GuestFunction| #[trigger]
            driver.needs(function) ==> guest_export(wasm, function.export_name()) == Some(
                (function.params(), function.results()),
            )
        &&& driver.needs_memory() ==> guest_memory(wasm, memory_export_name())
    }
    &&& past_decoding(failure) ==> is_module(wasm)
}

/// Whether a run that ended in `failure`, or without one, got past startup.
pub open spec fn past_startup(failure: Option<Failure>) -> bool {
    match failure {
        None => true,
        Some(failure) => !failure.at_startup(),
    }
}

/// Whether a run that ended in `failure`, or without one, got past the
/// decoding of its module.
pub open spec fn past_decoding(failure: Option<Failure>) -> bool {
    match failure {
        None => true,
        Some(failure) => failure != Failure::EngineConstruction && failure
            != Failure::ModuleDecode,
    }
}

/// The stage at which a run of `driver` ended: its last stage if nothing
/// stopped it, the stage of its failure otherwise.
pub open spec fn final_stage(driver: Driver, failure: Option<Failure>) -> Stage {
    match failure {
        None => Stage::Exited,
        Some(failure) => failure.stage(driver),
    }
}

impl AddRun {
    /// Whether this is what a run of `driver` can leave behind. Its end is
    /// as [`ending_fits`] says. The samples are the first rounds of the
    /// driver's loop, each with the arguments of its round and with the
    /// 32-bit integer that the call returned.
    pub open spec fn well_formed(self, driver: Driver) -> bool {
        &&& driver.adds()
        &&& ending_fits(driver, self.exports, self.failure, self.samples@.len(), driver.rounds())
        &&& forall|k: int|
            0 <= k < self.samples@.len() ==> (
                #[trigger] self.samples@[k].left,
                self.samples@[k].right,
            ) == driver.add_arguments(k)
        &&& forall|k: int|
            0 <= k < self.samples@.len() ==> (#[trigger] self.samples@[k]).returned is Some
    }

    /// Whether the run went through every round without failure.
    pub open spec fn complete(self) -> bool {
        self.failure is None
    }

    /// Whether every call of the run returned what the function `pure` gives
    /// for the call's arguments.
    pub open spec fn computes(self, pure: spec_fn(i32, i32) -> i32) -> bool {
        forall|k: int|
            0 <= k < self.samples@.len() ==> (#[trigger] self.samples@[k]).returned == Some(
                pure(self.samples@[k].left, self.samples@[k].right),
            )
    }

    /// Whether every call of the run returned what a guest with a state
    /// returns that sees the calls one after another, in the order of the
    /// samples: the guest starts in `start`, answers a call with `output` of
    /// its state and the arguments, and moves to `step` of them.
    pub open spec fn follows(
        self,
        start: int,
        step: spec_fn(int, i32, i32) -> int,
        output: spec_fn(int, i32, i32) -> i32,
    ) -> bool {
        forall|k: int|
            0 <= k < self.samples@.len() ==> (#[trigger] self.samples@[k]).returned == Some(
                output(
                    guest_state(self.samples@, start, step, k),
                    self.samples@[k].left,
                    self.samples@[k].right,
                ),
            )
    }

    /// The lines that report the run, as text: one line for each sample, and
    /// after them the result of the last call if the driver reports it and
    /// the run is complete.
    pub open spec fn line_texts(self, driver: Driver) -> Seq<Seq<char>> {
        let timings = Seq::new(
            self.samples@.len(),
            |k: int| timing_text(driver, self.samples@[k].elapsed),
        );
        if self.shows_result(driver) {
            timings.push(result_text(self.samples@.last().returned->Some_0 as int))
        } else {
            timings
        }
    }

    /// Whether the report of the run ends with the last call's result.
    pub open spec fn shows_result(self, driver: Driver) -> bool {
        &&& driver.reports_result()
        &&& self.failure is None
        &&& self.samples@.len() > 0
        &&& self.samples@.last().returned is Some
    }

    /// Takes in what came of the call of one round, made with `left` and
    /// `right` and timed at `elapsed`: a call that returned becomes the next
    /// sample, and a call that failed stops the run.
    pub fn record_call(
        &mut self,
        left: i32,
        right: i32,
        outcome: CallOutcome,
        elapsed: Elapsed,
    )
        ensures
            final(self).exports == old(self).exports,
            match outcome {
                CallOutcome::Failed => {
                    &&& final(self).samples@ == old(self).samples@
                    &&& final(self).failure == Some(Failure::Invocation(GuestFunction::Add))
                },
                CallOutcome::Returned(slot) => {
                    &&& final(self).samples@ == old(self).samples@.push(
                        AddSample { left, right, returned: slot, elapsed },
                    )
                    &&& final(self).failure == old(self).failure
                },
            },
    {
        match outcome {
            CallOutcome::Failed => {
                self.failure = Some(Failure::Invocation(GuestFunction::Add));
            },
            CallOutcome::Returned(slot) => {
                self.samples.push(AddSample { left, right, returned: slot, elapsed });
            },
        }
    }

    /// Ends the loop of a run of `driver`: if the driver reports the result
    /// of its last call and nothing has stopped the run, the last sample is
    /// judged, and a result that is no 32-bit integer stops the run.
    pub fn conclude(&mut self, driver: Driver)
        ensures
            final(self).exports == old(self).exports,
            final(self).samples@ == old(self).samples@,
            final(self).failure == if driver.reports_result() && old(self).failure is None && old(
                self,
            ).samples@.len() > 0 {
                match slot_verdict(GuestFunction::Add, old(self).samples@.last().returned) {
                    Ok(_) => None,
                    Err(failure) => Some(failure),
                }
            } else {
                old(self).failure
            },
    {
        if driver.reports_a_result() && self.failure.is_none() && self.samples.len() > 0 {
            let last = self.samples[self.samples.len() - 1];
            match expect_i32(GuestFunction::Add, last.returned) {
                Ok(_) => {},
                Err(failure) => {
                    self.failure = Some(failure);
                },
            }
        }
    }

    /// The stage at which the run ended.
    pub fn stage(&self, driver: Driver) -> (stage: Stage)
        ensures
            stage == final_stage(driver, self.failure),
    {
        match self.failure {
            None => Stage::Exited,
            Some(failure) => failure.stage_in(driver),
        }
    }

    /// The lines that report the run, in the order in which they are
    /// written. The file-loaded driver writes each call's time in debug
    /// notation and, after a complete run, the last result; the others write
    /// each call's time as a count of nanoseconds.
    pub fn lines(&self, driver: Driver) -> (lines: Vec<String>)
        ensures
            texts_of(lines@) == self.line_texts(driver),
    {
        let mut lines: Vec<String> = Vec::new();
        let mut k: usize = 0;
        while k < self.samples.len()
            invariant
                k <= self.samples@.len(),
                lines@.len() == k,
                forall|j: int|
                    0 <= j < k ==> (#[trigger] lines@[j])@ == timing_text(
                        driver,
                        self.samples@[j].elapsed,
                    ),
            decreases self.samples@.len() - k,
        {
            let sample = self.samples[k];
            let line = match driver {
                Driver::FileAdd => time_taken_line(&sample.elapsed),
                _ => time_line(sample.elapsed.as_nanos_i64()),
            };
            lines.push(line);
            k += 1;
        }
        if driver.reports_a_result() && self.failure.is_none() && self.samples.len() > 0 {
            let last = self.samples[self.samples.len() - 1];
            if let Some(value) = last.returned {
                lines.push(result_line(value));
            }
        }
        assert(texts_of(lines@) =~= self.line_texts(driver));
        lines
    }
}

impl ProbeRun {
    /// Whether this is what a run of the allocator probe can leave behind,
    /// with its loop switched on (`timed`) or off: its end is as
    /// [`ending_fits`] says, for the thousand rounds of the loop or for none,
    /// and every round asked for the same number of bytes.
    pub open spec fn well_formed(self, timed: bool) -> bool {
        &&& ending_fits(
            Driver::AllocatorProbe,
            self.exports,
            self.failure,
            self.samples@.len(),
            probe_rounds(timed),
        )
        &&& forall|k: int|
            0 <= k < self.samples@.len() ==> (#[trigger] self.samples@[k]).size
                == PROBE_ALLOCATION
    }

    /// Takes in what came of the call of `allocate`: the pointer that it
    /// returned, or nothing where the call failed or returned no 32-bit
    /// integer, which stops the run.
    pub fn take_allocation(&mut self, outcome: CallOutcome) -> (pointer: Option<i32>)
        ensures
            final(self).exports == old(self).exports,
            final(self).samples@ == old(self).samples@,
            match call_verdict(GuestFunction::Allocate, outcome) {
                Ok(returned) => pointer == Some(returned) && final(self).failure == old(
                    self,
                ).failure,
                Err(failure) => pointer is None && final(self).failure == Some(failure),
            },
    {
        match allocated_pointer(outcome) {
            Ok(returned) => Some(returned),
            Err(failure) => {
                self.failure = Some(failure);
                None
            },
        }
    }

    /// Takes in what came of the call of `deallocate` that ends a round in
    /// which `size` bytes were asked for and `pointer` was returned: a call
    /// that returned makes the round the next sample, with the size of the
    /// memory and the time of the round, and a call that failed stops the
    /// run.
    pub fn record_round(
        &mut self,
        size: i32,
        pointer: i32,
        released: CallOutcome,
        memory_bytes: usize,
        elapsed: Elapsed,
    )
        ensures
            final(self).exports == old(self).exports,
            match released {
                CallOutcome::Failed => {
                    &&& final(self).samples@ == old(self).samples@
                    &&& final(self).failure == Some(
                        Failure::Invocation(GuestFunction::Deallocate),
                    )
                },
                CallOutcome::Returned(_) => {
                    &&& final(self).samples@ == old(self).samples@.push(
                        ProbeSample { size, pointer, memory_bytes, elapsed },
                    )
                    &&& final(self).failure == old(self).failure
                },
            },
    {
        match released {
            CallOutcome::Failed => {
                self.failure = Some(Failure::Invocation(GuestFunction::Deallocate));
            },
            CallOutcome::Returned(_) => {
                self.samples.push(ProbeSample { size, pointer, memory_bytes, elapsed });
            },
        }
    }

    /// Whether the run went through every round without failure.
    pub open spec fn complete(self) -> bool {
        self.failure is None
    }

    /// The lines that report the run, as text: one line for each sample.
    pub open spec fn line_texts(self) -> Seq<Seq<char>> {
        Seq::new(
            self.samples@.len(),
            |k: int|
                data_text(
                    self.samples@[k].memory_bytes as nat,
                    self.samples@[k].elapsed.total_nanos(),
                ),
        )
    }

    /// The stage at which the run ended.
    pub fn stage(&self) -> (stage: Stage)
        ensures
            stage == final_stage(Driver::AllocatorProbe, self.failure),
    {
        match self.failure {
            None => Stage::Exited,
            Some(failure) => failure.stage_in(Driver::AllocatorProbe),
        }
    }

    /// The lines that report the run, in the order in which they are
    /// written: for each round the size of the guest's memory and the
    /// round's time in nanoseconds.
    pub fn lines(&self) -> (lines: Vec<String>)
        ensures
            texts_of(lines@) == self.line_texts(),
    {
        let mut lines: Vec<String> = Vec::new();
        let mut k: usize = 0;
        while k < self.samples.len()
            invariant
                k <= self.samples@.len(),
                lines@.len() == k,
                forall|j: int|
                    0 <= j < k ==> (#[trigger] lines@[j])@ == data_text(
                        self.samples@[j].memory_bytes as nat,
                        self.samples@[j].elapsed.total_nanos(),
                    ),
            decreases self.samples@.len() - k,
        {
            let sample = self.samples[k];
            lines.push(data_line(sample.memory_bytes, sample.elapsed.as_nanos()));
            k += 1;
        }
        assert(texts_of(lines@) =~= self.line_texts());
        lines
    }
}

/// The number of rounds of the allocator probe: those of its loop if the loop
/// is switched on, none otherwise.
pub open spec fn probe_rounds(timed: bool) -> nat {
    if timed {
        Driver::AllocatorProbe.rounds()
    } else {
        0
    }
}

/// The line that an adding driver writes for a call that took `elapsed`: the
/// file-loaded driver writes the span in debug notation, the others write it
/// as a signed 64-bit count of nanoseconds.
pub open spec fn timing_text(driver: Driver, elapsed: Elapsed) -> Seq<char> {
    match driver {
        Driver::FileAdd => time_taken_text(elapsed),
        _ => time_text(wrapped_i64(elapsed.total_nanos())),
    }
}

/// The texts of a list of lines.
pub open spec fn texts_of(lines: Seq<String>) -> Seq<Seq<char>> {
    Seq::new(lines.len(), |k: int| lines[k]@)
}

/// The state in which a guest is when the call of sample `index` reaches
/// it: it starts in `start` and moves, with each call before that one, to
/// `step` of its state and the call's arguments.
pub open spec fn guest_state(
    samples: Seq<AddSample>,
    start: int,
    step: spec_fn(int, i32, i32) -> int,
    index: int,
) -> int
    decreases index,
{
    if index <= 0 {
        start
    } else {
        step(
            guest_state(samples, start, step, index - 1),
            samples[index - 1].left,
            samples[index - 1].right,
        )
    }
}

/// The guest that counts its calls: its state is the number of calls it has
/// seen.
pub open spec fn counting_step() -> spec_fn(int, i32, i32) -> int {
    |state: int, left: i32, right: i32| state + 1
}

/// The guest that counts its calls answers each call with the number of
/// calls it has seen before.
pub open spec fn counting_output() -> spec_fn(int, i32, i32) -> i32 {
    |state: int, left: i32, right: i32| state as i32
}

/// A guest that counts its calls sees them in the order of the samples, one
/// at a time: sample `k` holds the ordinal `k`, so that the ordinals of a
/// run of `n` calls are 0 to `n - 1` in order.
pub proof fn lemma_calls_in_order(run: AddRun)
    requires
        run.follows(0, counting_step(), counting_output()),
    ensures
        forall|k: int|
            0 <= k < run.samples@.len() ==> (#[trigger] run.samples@[k]).returned == Some(k as i32),
{
    assert forall|k: int| 0 <= k < run.samples@.len() implies (#[trigger] run.samples@[k]).returned
        == Some(k as i32) by {
        lemma_counting_state(run.samples@, k);
    }
}

/// When the call of sample `index` reaches it, the guest that counts its
/// calls has seen `index` of them.
pub proof fn lemma_counting_state(samples: Seq<AddSample>, index: int)
    requires
        0 <= index,
    ensures
        guest_state(samples, 0, counting_step(), index) == index,
    decreases index,
{
    if index > 0 {
        lemma_counting_state(samples, index - 1);
    }
}

/// Round `k` of the file-loaded driver hands `k` over twice, so that its
/// samples show the rounds 0, 1, 2 and so on in order.
pub proof fn lemma_file_add_rounds_in_order(run: AddRun)
    requires
        run.well_formed(Driver::FileAdd),
    ensures
        forall|k: int|
            0 <= k < run.samples@.len() ==> (#[trigger] run.samples@[k]).left == k
                && run.samples@[k].right == k,
{
    assert forall|k: int| 0 <= k < run.samples@.len() implies (#[trigger] run.samples@[k]).left == k
        && run.samples@[k].right == k by {
        assert((run.samples@[k].left, run.samples@[k].right) == Driver::FileAdd.add_arguments(k));
    }
}

/// With a guest whose `add` is the function `pure`, a complete run of the
/// file-loaded driver ends with the line for `pure(9, 9)`.
pub proof fn lemma_file_add_reports_last_sum(run: AddRun, pure: spec_fn(i32, i32) -> i32)
    requires
        run.well_formed(Driver::FileAdd),
        run.complete(),
        run.computes(pure),
    ensures
        run.line_texts(Driver::FileAdd).last() == result_text(pure(9, 9) as int),
{
    let last = run.samples@[9];
    assert((last.left, last.right) == Driver::FileAdd.add_arguments(9));
    assert(run.samples@.last() == last);
}

/// With a guest whose `add` is the function `pure`, every call of the
/// embedded driver returns `pure(1, 2)`.
pub proof fn lemma_embedded_add_yields_one_plus_two(run: AddRun, pure: spec_fn(i32, i32) -> i32)
    requires
        run.well_formed(Driver::EmbeddedAdd),
        run.computes(pure),
    ensures
        forall|k: int|
            0 <= k < run.samples@.len() ==> (#[trigger] run.samples@[k]).returned == Some(
                pure(1, 2),
            ),
{
    assert forall|k: int| 0 <= k < run.samples@.len() implies (#[trigger] run.samples@[k]).returned
        == Some(pure(1, 2)) by {
        assert((run.samples@[k].left, run.samples@[k].right) == Driver::EmbeddedAdd.add_arguments(
            k,
        ));
    }
}

/// The report of a complete run has as many lines whatever was measured: 11
/// for the file-loaded driver, ten timings and one result, and 100 for the
/// embedded driver. The report of a run that failed has one line for each
/// call that returned and none for a result.
pub proof fn lemma_add_line_count(run: AddRun, driver: Driver)
    requires
        run.well_formed(driver),
    ensures
        run.complete() && driver == Driver::FileAdd ==> run.line_texts(driver).len() == 11,
        run.complete() && driver == Driver::EmbeddedAdd ==> run.line_texts(driver).len() == 100,
        !run.complete() ==> run.line_texts(driver).len() == run.samples@.len()
            && !run.shows_result(driver),
        run.failure matches Some(failure) && failure.at_startup() ==> run.line_texts(
            driver,
        ).len() == 0,
{
}

/// The report of a complete run of the allocator probe has 1000 lines with
/// its loop switched on and none without; the report of a run that failed
/// at startup has none. With its loop off, the probe makes no call and can
/// fail at startup only; with its loop on, a failure after startup is a
/// call that failed before the last round was done.
pub proof fn lemma_probe_line_count(run: ProbeRun, timed: bool)
    requires
        run.well_formed(timed),
    ensures
        run.complete() && timed ==> run.line_texts().len() == 1000,
        !timed ==> run.line_texts().len() == 0,
        run.failure matches Some(failure) && failure.at_startup() ==> run.line_texts().len() == 0,
        run.failure matches Some(failure) ==> (!timed ==> failure.at_startup()),
        run.failure matches Some(failure) ==> (!failure.at_startup() ==> failure is Invocation
            && run.line_texts().len() < 1000),
{
}

/// An engine with `settings` applied to the default configuration, and with
/// `memory_reservation` if the host names one: its configuration holds the
/// compiler that is in use for what the settings name, the optimization level
/// and the reservation if they are named, and the engine's defaults
/// otherwise. Whether the engine accepts the configuration is the engine's to
/// say; its refusal is the one failure.
pub fn make_engine(settings: EngineSettings, memory_reservation: Option<u64>) -> (made: Result<
    wasmtime::Engine,
    Failure,
>)
    ensures
        made matches Ok(engine) ==> engine_named(engine) == (
            Some(compiler_in_use(settings.compiler)),
            settings.optimization,
            memory_reservation,
        ),
        made matches Err(failure) ==> failure == Failure::EngineConstruction,
{
    let mut config = config_new();
    if let Some(compiler) = settings.compiler {
        config_strategy(&mut config, compiler);
    }
    if let Some(level) = settings.optimization {
        config_opt_level(&mut config, level);
    }
    if let Some(bytes) = memory_reservation {
        config_memory_reservation(&mut config, bytes);
    }
    match engine_new(&config) {
        Ok(engine) => Ok(engine),
        Err(_) => Err(Failure::EngineConstruction),
    }
}

/// Brings a guest up for `driver`: makes the engine, decodes `wasm`, makes
/// the store and instantiates the module in it, through a linker that holds
/// the host's clock if the driver offers one and without imports otherwise.
/// The instance is made of `wasm`. A failure is one of startup, before any
/// lookup, and after decoding only if `wasm` is a module.
fn boot(driver: Driver, wasm: &[u8], options: HostOptions) -> (booted: Result<
    (wasmtime::Store<i32>, wasmtime::Instance),
    Failure,
>)
    ensures
        booted matches Ok(guest) ==> {
            &&& instance_owner(guest.1) == store_key(guest.0)
            &&& instance_source(guest.1) == wasm@
            &&& is_module(wasm@)
        },
        booted matches Err(failure) ==> {
            &&& failure.at_startup()
            &&& driver.can_fail_with(failure)
            &&& failure.stage(driver).position() < Stage::InstanceReady.position()
            &&& past_decoding(Some(failure)) ==> is_module(wasm@)
        },
{
    let clock = HostClock::start(options.clock);
    let engine = match make_engine(driver.engine_settings(), options.memory_reservation) {
        Ok(engine) => engine,
        Err(failure) => {
            return Err(failure);
        },
    };
    let module = match module_new(&engine, wasm) {
        Ok(module) => module,
        Err(_) => {
            return Err(Failure::ModuleDecode);
        },
    };
    let mut store = store_new(&engine, STORE_DATA);
    let made = if driver.links_clock() {
        let mut linker = linker_new(&engine);
        match linker_func_wrap(&mut linker, clock_namespace_str(), clock_name_str(), clock) {
            Ok(_) => {},
            Err(_) => {
                return Err(Failure::LinkerRegistration);
            },
        }
        linker_instantiate(&linker, &mut store, &module)
    } else {
        instance_new(&mut store, &module)
    };
    match made {
        Ok(instance) => Ok((store, instance)),
        Err(_) => Err(Failure::Instantiation),
    }
}

/// Looks `function` up among the exports of `instance`, under the name that
/// the guest must export it by: the function, if the guest exports one of
/// that name, and with it the signature that the engine reports for it,
/// which is the one that the module's bytes give it.
fn resolve(
    instance: &wasmtime::Instance,
    store: &mut wasmtime::Store<i32>,
    function: GuestFunction,
) -> (resolved: (Option<wasmtime::Func>, Option<Signature>))
    requires
        instance_owner(*instance) == store_key(*old(store)),
    ensures
        store_key(*final(store)) == store_key(*old(store)),
        resolved.0 == exported_func(*instance, function.export_name()),
        resolved.0 matches Some(func) ==> func_owner(func) == store_key(*old(store)),
        found_view(resolved.1) == match resolved.0 {
            Some(func) => Some(func_kinds(func)),
            None => None,
        },
        found_view(resolved.1) == guest_export(instance_source(*instance), function.export_name()),
{
    let found = instance_get_func(instance, store, function.name());
    let signature = match &found {
        Some(func) => Some(func_signature(func, store)),
        None => None,
    };
    (found, signature)
}

/// What came of a call, from what the engine handed back: a failure, or the
/// first result slot of a call that returned.
fn outcome_of(result: Result<Vec<Option<i32>>, wasmtime::Error>) -> (outcome: CallOutcome)
    ensures
        outcome == match result {
            Ok(slots) => CallOutcome::Returned(
                if slots@.len() > 0 {
                    slots@[0]
                } else {
                    None
                },
            ),
            Err(_) => CallOutcome::Failed,
        },
{
    match result {
        Ok(slots) => {
            if slots.len() > 0 {
                CallOutcome::Returned(slots[0])
            } else {
                CallOutcome::Returned(None)
            }
        },
        Err(_) => CallOutcome::Failed,
    }
}

/// Runs an adding driver on the module in `wasm`.
fn run_adding(driver: Driver, wasm: &[u8], options: HostOptions) -> (run: AddRun)
    requires
        driver.adds(),
    ensures
        run.well_formed(driver),
        guest_agrees(driver, wasm@, run.exports, run.failure),
{
    let mut run = AddRun { exports: FoundExports::nothing(), samples: Vec::new(), failure: None };
    let (mut store, instance) = match boot(driver, wasm, options) {
        Ok(guest) => guest,
        Err(failure) => {
            run.failure = Some(failure);
            return run;
        },
    };
    let (found, signature) = resolve(&instance, &mut store, GuestFunction::Add);
    let verdict = check_function(GuestFunction::Add, &signature);
    run.exports.add = signature;
    let add = match verdict {
        Ok(_) => found.unwrap(),
        Err(failure) => {
            run.failure = Some(failure);
            return run;
        },
    };
    assert(driver.satisfied_by(run.exports)) by {
        assert forall|function: GuestFunction| #[trigger]
            driver.needs(function) implies crate::driver::function_verdict(
            function,
            run.exports.function(function),
        ) is Ok by {
            assert(function == GuestFunction::Add);
        }
    }
    let rounds: usize = driver.round_count();
    let mut round: usize = 0;
    while round < rounds
        invariant
            driver.adds(),
            rounds == driver.rounds(),
            round <= rounds,
            run.samples@.len() == round,
            run.failure is None,
            func_owner(add) == store_key(store),
            GuestFunction::Add.accepts(func_kinds(add)),
            driver.satisfied_by(run.exports),
            guest_agrees(driver, wasm@, run.exports, None),
            forall|k: int|
                0 <= k < round ==> (#[trigger] run.samples@[k].left, run.samples@[k].right)
                    == driver.add_arguments(k),
            forall|k: int| 0 <= k < round ==> (#[trigger] run.samples@[k]).returned is Some,
        decreases rounds - round,
    {
        let (left, right) = driver.arguments_for(round);
        let args = add_call_arguments(left, right);
        let start = instant_now();
        let result = func_call(&add, &mut store, &args, GuestFunction::Add.result_count());
        let elapsed = elapsed_since(&start);
        let outcome = outcome_of(result);
        run.record_call(left, right, outcome, elapsed);
        if run.failure.is_some() {
            return run;
        }
        round += 1;
    }
    run.conclude(driver);
    run
}

/// Runs the file-loaded adding driver on the module in `wasm`: with the
/// optimizing compiler set to speed and size, and without imports, it calls
/// `add(i, i)` for `i` from 0 to 9 and times each call. What the run says of
/// the guest's exports is what `wasm` holds.
pub fn run_file_add(wasm: &[u8], options: HostOptions) -> (run: AddRun)
    ensures
        run.well_formed(Driver::FileAdd),
        guest_agrees(Driver::FileAdd, wasm@, run.exports, run.failure),
{
    run_adding(Driver::FileAdd, wasm, options)
}

/// Runs the embedded adding driver on the module in `wasm`: with the
/// engine's defaults, and with the host's clock on offer as `time::now`, it
/// calls `add(1, 2)` one hundred times and times each call. What the run
/// says of the guest's exports is what `wasm` holds.
pub fn run_embedded_add(wasm: &[u8], options: HostOptions) -> (run: AddRun)
    ensures
        run.well_formed(Driver::EmbeddedAdd),
        guest_agrees(Driver::EmbeddedAdd, wasm@, run.exports, run.failure),
{
    run_adding(Driver::EmbeddedAdd, wasm, options)
}

/// Runs the allocator probe on the module in `wasm`: with the optimizing
/// compiler, and with the host's clock on offer as `time::now`, it resolves
/// `allocate`, `deallocate` and the memory. If `timed`, it then allocates and
/// releases 128 bytes a thousand times and times each round. What the run
/// says of the guest's exports is what `wasm` holds.
pub fn run_allocator_probe(wasm: &[u8], timed: bool, options: HostOptions) -> (run: ProbeRun)
    ensures
        run.well_formed(timed),
        guest_agrees(Driver::AllocatorProbe, wasm@, run.exports, run.failure),
{
    let driver = Driver::AllocatorProbe;
    let mut run = ProbeRun { exports: FoundExports::nothing(), samples: Vec::new(), failure: None };
    let (mut store, instance) = match boot(driver, wasm, options) {
        Ok(guest) => guest,
        Err(failure) => {
            run.failure = Some(failure);
            return run;
        },
    };
    let (found, signature) = resolve(&instance, &mut store, GuestFunction::Allocate);
    let verdict = check_function(GuestFunction::Allocate, &signature);
    run.exports.allocate = signature;
    let allocate = match verdict {
        Ok(_) => found.unwrap(),
        Err(failure) => {
            run.failure = Some(failure);
            return run;
        },
    };
    let (found, signature) = resolve(&instance, &mut store, GuestFunction::Deallocate);
    let verdict = check_function(GuestFunction::Deallocate, &signature);
    run.exports.deallocate = signature;
    let deallocate = match verdict {
        Ok(_) => found.unwrap(),
        Err(failure) => {
            run.failure = Some(failure);
            return run;
        },
    };
    let found = instance_get_memory(&instance, &mut store, memory_name());
    run.exports.memory = found.is_some();
    let memory = match check_memory(run.exports.memory) {
        Ok(_) => found.unwrap(),
        Err(failure) => {
            run.failure = Some(failure);
            return run;
        },
    };
    assert(driver.satisfied_by(run.exports)) by {
        assert forall|function: GuestFunction| #[trigger]
            driver.needs(function) implies crate::driver::function_verdict(
            function,
            run.exports.function(function),
        ) is Ok by {
            assert(function == GuestFunction::Allocate || function == GuestFunction::Deallocate);
        }
    }
    let rounds: usize = if timed {
        driver.round_count()
    } else {
        0
    };
    let mut round: usize = 0;
    while round < rounds
        invariant
            driver == Driver::AllocatorProbe,
            rounds == probe_rounds(timed),
            round <= rounds,
            run.samples@.len() == round,
            run.failure is None,
            func_owner(allocate) == store_key(store),
            func_owner(deallocate) == store_key(store),
            memory_owner(memory) == store_key(store),
            GuestFunction::Allocate.accepts(func_kinds(allocate)),
            GuestFunction::Deallocate.accepts(func_kinds(deallocate)),
            driver.satisfied_by(run.exports),
            guest_agrees(driver, wasm@, run.exports, None),
            forall|k: int| 0 <= k < round ==> (#[trigger] run.samples@[k]).size == PROBE_ALLOCATION,
        decreases rounds - round,
    {
        let size = allocate_call_arguments();
        let start = instant_now();
        let allocated = outcome_of(
            func_call(&allocate, &mut store, &size, GuestFunction::Allocate.result_count()),
        );
        let pointer = match run.take_allocation(allocated) {
            Some(pointer) => pointer,
            None => {
                return run;
            },
        };
        let block = deallocate_call_arguments(pointer);
        let released = outcome_of(
            func_call(&deallocate, &mut store, &block, GuestFunction::Deallocate.result_count()),
        );
        let elapsed = elapsed_since(&start);
        let memory_bytes: usize = memory_data_size(&memory, &store);
        run.record_round(PROBE_ALLOCATION, pointer, released, memory_bytes, elapsed);
        if run.failure.is_some() {
            return run;
        }
        round += 1;
    }
    run
}

} // verus!
