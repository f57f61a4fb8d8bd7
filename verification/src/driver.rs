//! The compiler driver as a state machine. The driver decides what happens
//! next in one compile-and-clean cycle; its caller does the outside work
//! (running the toolchain, copying files) and reports back with an event.
//!
//! A cycle runs as follows. The toolchain compiles the package. If it
//! succeeds, the bitcode artifacts found in the source tree are copied into
//! the package's subdirectory of the bitcode store. Then, whether or not the
//! compilation succeeded, the clean stage runs. Only then does the cycle end,
//! with success or with the error that describes what failed.

use crate::error::{Error, ProcessOutput};
use crate::toolchain::{
    clean, compile_failure, failure_text, store_subdir, subdir_name, utf8_text,
};
use vstd::prelude::*;
use vstd::utf8::valid_utf8;

verus! {

/// Where a cycle stands.
#[derive(Debug)]
pub enum Stage {
    /// The toolchain compiles; its output is awaited.
    Compiling,
    /// The compilation succeeded; the artifacts are being relocated.
    Relocating,
    /// The clean stage runs. Holds the output of the compilation if it
    /// failed.
    Cleaning(Option<ProcessOutput>),
    /// The cycle is over.
    Finished,
}

/// What the caller reports to the driver.
#[derive(Debug)]
pub enum Event {
    /// The compile command has run and left this output.
    Compiled(ProcessOutput),
    /// The artifacts have been copied into the store.
    Relocated,
    /// The clean command has run and left this output, and the build-output
    /// directory has been removed.
    Cleaned(ProcessOutput),
}

/// What the driver asks of its caller.
#[derive(Debug)]
pub enum Action {
    /// Run the compile command in the source tree and report its output.
    Compile,
    /// Create the subdirectory of this name in the bitcode store, unless it
    /// exists, and copy every bitcode artifact below the source tree into
    /// it, replacing a file of the same name.
    Relocate(String),
    /// Run the clean command in the source tree, remove the build-output
    /// directory below it, and report the command's output.
    Clean,
    /// End the cycle with this result.
    Finish(Result<(), Error>),
}

/// The state of one compile-and-clean cycle.
#[derive(Debug)]
pub struct Driver {
    /// The name of the package's subdirectory in the bitcode store.
    pub fullname: String,
    pub stage: Stage,
}

/// The result on which a cycle ends once the clean stage has reported
/// `cleaned`, where `failed` holds the output of the compilation if it
/// failed. A failed clean stage is reported first, with its output; then a
/// failed compilation, with its diagnostics; without either the cycle
/// succeeds.
pub open spec fn ends_with(
    failed: Option<ProcessOutput>,
    cleaned: ProcessOutput,
    result: Result<(), Error>,
) -> bool {
    if !cleaned.succeeded() {
        result == Err::<(), Error>(Error::CleanFailure(cleaned))
    } else {
        match failed {
            None => result == Ok::<(), Error>(()),
            Some(compiled) => result matches Err(Error::CompileFailed(text)) && text@
                == failure_text(compiled.stdout@, compiled.stderr@),
        }
    }
}

impl Driver {
    /// The output kept during the clean stage is that of a failed
    /// compilation.
    pub open spec fn wf(&self) -> bool {
        self.stage matches Stage::Cleaning(Some(compiled)) ==> !compiled.succeeded()
    }

    /// `event` is the report that the driver waits for, and the driver can
    /// go on with it. The diagnostics of a failed compilation are text: when
    /// they are due, both output streams of the compilation have to be valid
    /// UTF-8.
    pub open spec fn awaits(&self, event: &Event) -> bool {
        match (self.stage, *event) {
            (Stage::Compiling, Event::Compiled(_)) => true,
            (Stage::Relocating, Event::Relocated) => true,
            (Stage::Cleaning(None), Event::Cleaned(_)) => true,
            (Stage::Cleaning(Some(compiled)), Event::Cleaned(cleaned)) => cleaned.succeeded()
                ==> valid_utf8(compiled.stdout@) && valid_utf8(compiled.stderr@),
            _ => false,
        }
    }

    /// The transition relation: on `event` the driver goes from `self` to
    /// `next` and asks for `action`.
    pub open spec fn steps_to(&self, event: Event, next: Driver, action: Action) -> bool {
        &&& next.fullname == self.fullname
        &&& match (self.stage, event) {
            (Stage::Compiling, Event::Compiled(compiled)) => if compiled.succeeded() {
                next.stage == Stage::Relocating && action == Action::Relocate(self.fullname)
            } else {
                next.stage == Stage::Cleaning(Some(compiled)) && action == Action::Clean
            },
            (Stage::Relocating, Event::Relocated) => next.stage == Stage::Cleaning(None) && action
                == Action::Clean,
            (Stage::Cleaning(failed), Event::Cleaned(cleaned)) => {
                &&& next.stage == Stage::Finished
                &&& action matches Action::Finish(result)
                &&& ends_with(failed, cleaned, result)
            },
            _ => false,
        }
    }

    /// Whether the driver can take `event` now.
    pub fn ready_for(&self, event: &Event) -> (ready: bool)
        ensures
            ready == self.awaits(event),
    {
        match (&self.stage, event) {
            (Stage::Compiling, Event::Compiled(_)) => true,
            (Stage::Relocating, Event::Relocated) => true,
            (Stage::Cleaning(None), Event::Cleaned(_)) => true,
            (Stage::Cleaning(Some(compiled)), Event::Cleaned(cleaned)) => {
                !cleaned.success() || (utf8_text(&compiled.stdout).is_some() && utf8_text(
                    &compiled.stderr,
                ).is_some())
            },
            _ => false,
        }
    }

    /// Takes the caller's report and says what to do next.
    pub fn step(self, event: Event) -> (next: (Driver, Action))
        requires
            self.wf(),
            self.awaits(&event),
        ensures
            next.0.wf(),
            self.steps_to(event, next.0, next.1),
    {
        let Driver { fullname, stage } = self;
        match (stage, event) {
            (Stage::Compiling, Event::Compiled(compiled)) => {
                if compiled.success() {
                    let dir = fullname.clone();
                    (Driver { fullname, stage: Stage::Relocating }, Action::Relocate(dir))
                } else {
                    (Driver { fullname, stage: Stage::Cleaning(Some(compiled)) }, Action::Clean)
                }
            },
            (Stage::Relocating, Event::Relocated) => {
                (Driver { fullname, stage: Stage::Cleaning(None) }, Action::Clean)
            },
            (Stage::Cleaning(failed), Event::Cleaned(cleaned)) => {
                let result = finish(failed, cleaned);
                (Driver { fullname, stage: Stage::Finished }, Action::Finish(result))
            },
            _ => vstd::pervasive::unreached(),
        }
    }
}

/// The result of a cycle, once the clean stage has reported `cleaned`;
/// `failed` holds the output of the compilation if it failed.
pub fn finish(failed: Option<ProcessOutput>, cleaned: ProcessOutput) -> (result: Result<(), Error>)
    requires
        failed matches Some(compiled) ==> (cleaned.succeeded() ==> valid_utf8(compiled.stdout@)
            && valid_utf8(compiled.stderr@)),
    ensures
        ends_with(failed, cleaned, result),
{
    match clean(cleaned) {
        Err(err) => Err(err),
        Ok(()) => match failed {
            None => Ok(()),
            Some(compiled) => Err(compile_failure(&compiled)),
        },
    }
}

/// Starts a compile-and-clean cycle for the package `name` at `version`. The
/// first thing asked of the caller is to run the compile command.
pub fn compile_crate(name: &str, version: &str) -> (start: (Driver, Action))
    ensures
        start.0.wf(),
        start.0.stage == Stage::Compiling,
        start.0.fullname@ == subdir_name(name@, version@),
        start.1 == Action::Compile,
{
    (Driver { fullname: store_subdir(name, version), stage: Stage::Compiling }, Action::Compile)
}

/// The cycle ends only on a report of the clean stage: whenever the driver
/// asks to finish, it was cleaning and the event was the clean stage's.
pub proof fn lemma_finish_follows_clean(driver: Driver, event: Event, next: Driver, action: Action)
    requires
        driver.steps_to(event, next, action),
        action is Finish,
    ensures
        driver.stage is Cleaning,
        event is Cleaned,
        next.stage == Stage::Finished,
{
}

/// Cleanup always runs, and a failed compilation is never passed over. When
/// the toolchain reports a failure, the next thing the driver asks for is the
/// clean stage, and whatever the clean stage reports, the cycle ends with an
/// error: with the compile failure and its diagnostics if the clean stage
/// succeeded, with the clean failure otherwise.
pub proof fn lemma_failed_compile_is_reported(
    start: Driver,
    compiled: ProcessOutput,
    cleaning: Driver,
    first: Action,
    cleaned: ProcessOutput,
    done: Driver,
    last: Action,
)
    requires
        start.stage == Stage::Compiling,
        !compiled.succeeded(),
        start.steps_to(Event::Compiled(compiled), cleaning, first),
        cleaning.steps_to(Event::Cleaned(cleaned), done, last),
    ensures
        first == Action::Clean,
        last matches Action::Finish(result) && result is Err,
        cleaned.succeeded() ==> (last matches Action::Finish(Err(Error::CompileFailed(text)))
            && text@ == failure_text(compiled.stdout@, compiled.stderr@)),
        !cleaned.succeeded() ==> last == Action::Finish(
            Err::<(), Error>(Error::CleanFailure(cleaned)),
        ),
{
}

/// After a successful compilation the artifacts are relocated into the
/// package's subdirectory, then the clean stage runs, and the cycle succeeds
/// if and only if the clean stage does.
pub proof fn lemma_successful_compile_is_cleaned(
    start: Driver,
    compiled: ProcessOutput,
    relocating: Driver,
    first: Action,
    cleaning: Driver,
    second: Action,
    cleaned: ProcessOutput,
    done: Driver,
    last: Action,
)
    requires
        start.stage == Stage::Compiling,
        compiled.succeeded(),
        start.steps_to(Event::Compiled(compiled), relocating, first),
        relocating.steps_to(Event::Relocated, cleaning, second),
        cleaning.steps_to(Event::Cleaned(cleaned), done, last),
    ensures
        first == Action::Relocate(start.fullname),
        second == Action::Clean,
        last matches Action::Finish(result) && (result is Ok <==> cleaned.succeeded()),
        !cleaned.succeeded() ==> last == Action::Finish(
            Err::<(), Error>(Error::CleanFailure(cleaned)),
        ),
{
}

} // verus!
