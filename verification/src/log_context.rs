use vstd::prelude::*;
use vstd::string::*;

use crate::errors::foreign_call_result;
use crate::errors::LoggingError;
use crate::severity::LogSeverity;
use crate::text::nul_free;
use crate::text::CText;

verus! {

/// Sentinel recording one successful configuration of the foreign logging
/// subsystem. It lives inside [`GlobalLogState`] while logging is active; its
/// removal (teardown) finalizes the foreign subsystem.
pub struct LogContext;

/// The single source of truth for whether the foreign logging subsystem is
/// configured.
///
/// The surrounding process keeps exactly one value of this type behind one
/// exclusive lock and holds that lock across every operation below, so each
/// verified transition models one serialized critical section. At most one
/// [`LogContext`] sentinel exists at any time: it is created only by
/// [`LogContext::init`] from the uninitialized state and destroyed only by
/// [`GlobalLogState::teardown`].
pub struct GlobalLogState {
    context: Option<LogContext>,
}

/// Whether one serialized initialize attempt leaves the subsystem
/// initialized, given the state found under the lock and the foreign
/// configure return code used when configuration runs.
pub open spec fn init_next(initialized: bool, configure_ret: i32) -> bool {
    initialized || configure_ret == 0
}

/// Whether one serialized initialize attempt invokes the foreign configure
/// primitive: only an attempt that finds the subsystem uninitialized does.
pub open spec fn init_configures(initialized: bool) -> bool {
    !initialized
}

/// Whether one serialized initialize attempt returns success: finding the
/// subsystem already initialized is success (idempotence), and otherwise the
/// foreign configure call must succeed.
pub open spec fn init_ok(initialized: bool, configure_ret: i32) -> bool {
    initialized || configure_ret == 0
}

/// Whether teardown invokes the foreign finalize primitive: only when the
/// subsystem is still initialized (finalize is idempotent, a second teardown
/// is a silent no-op).
pub open spec fn teardown_finalizes(initialized: bool) -> bool {
    initialized
}

/// Whether an emission attempt reaches the foreign emit primitive: emission
/// while uninitialized is dropped silently.
pub open spec fn emit_reaches_foreign(initialized: bool) -> bool {
    initialized
}

/// The decision an initialize attempt takes under the state lock.
#[derive(Clone, Copy, Debug, PartialEq, Eq, Structural)]
pub enum InitDecision {
    /// The subsystem is already configured: return success at once and
    /// invoke no foreign primitive.
    AlreadyInitialized,
    /// The subsystem is not configured: read the external context's argument
    /// set (its lock nested strictly inside the state lock), invoke the
    /// foreign configure primitive with it, and complete the attempt with
    /// [`LogContext::init`].
    ConfigureRequired,
}

impl GlobalLogState {
    /// Creates the state cell; logging starts uninitialized.
    pub fn new() -> (s: GlobalLogState)
        ensures
            !s.initialized(),
    {
        GlobalLogState { context: None }
    }

    /// Whether the foreign logging subsystem is currently configured.
    pub closed spec fn initialized(&self) -> bool {
        self.context is Some
    }

    /// Observes the current state under the lock; no side effects.
    pub fn is_initialized(&self) -> (r: bool)
        ensures
            r == self.initialized(),
    {
        self.context.is_some()
    }

    /// Installs the sentinel; called only by the initializer, under the
    /// lock, once the foreign configure call has succeeded.
    fn begin(&mut self)
        requires
            !old(self).initialized(),
        ensures
            final(self).initialized(),
    {
        self.context = Some(LogContext::new());
    }

    /// Guard-destruction step: always leaves the state uninitialized and
    /// says whether the foreign finalize primitive must be invoked. When the
    /// state is already uninitialized the step is a silent no-op; finalize
    /// failures are the caller's to swallow, never to propagate.
    pub fn teardown(&mut self) -> (call_finalize: bool)
        ensures
            !final(self).initialized(),
            call_finalize == teardown_finalizes(old(self).initialized()),
    {
        let was_initialized = self.context.is_some();
        self.context = None;
        was_initialized
    }
}

impl LogContext {
    /// Creates the sentinel value.
    pub fn new() -> LogContext {
        LogContext
    }

    /// First half of a serialized initialize attempt: decides, from the
    /// state found under the lock, whether the foreign configure primitive
    /// must be invoked.
    pub fn init_decision(state: &GlobalLogState) -> (d: InitDecision)
        ensures
            d == InitDecision::ConfigureRequired <==> init_configures(state.initialized()),
    {
        if state.is_initialized() {
            InitDecision::AlreadyInitialized
        } else {
            InitDecision::ConfigureRequired
        }
    }

    /// Second half of a serialized initialize attempt, still under the same
    /// lock: applies the foreign configure return code to the state.
    /// Finding the subsystem already initialized is idempotent success; a
    /// zero code initializes it; a nonzero code is surfaced verbatim and
    /// leaves the state uninitialized.
    pub fn init(state: &mut GlobalLogState, configure_ret: i32) -> (r: Result<(), LoggingError>)
        ensures
            final(state).initialized() == init_next(old(state).initialized(), configure_ret),
            r is Ok <==> init_ok(old(state).initialized(), configure_ret),
            r is Err ==> r == Err::<(), LoggingError>(LoggingError::ForeignFailure(configure_ret)),
    {
        if state.is_initialized() {
            return Ok(());
        }
        match foreign_call_result(configure_ret) {
            Ok(()) => {
                state.begin();
                Ok(())
            },
            Err(e) => Err(e),
        }
    }
}

/// One marshalled call to the foreign set-level primitive.
pub struct LevelRequest {
    /// Logger name in the foreign string convention.
    pub logger_name: CText,
    /// Foreign severity code to install for that logger.
    pub severity_code: i32,
}

impl LevelRequest {
    /// Well-formedness: the logger name obeys the foreign string convention.
    pub open spec fn wf(self) -> bool {
        self.logger_name.wf()
    }
}

/// Transient per-call record of the emitting call site, referenced by the
/// foreign emit primitive only for the duration of that one synchronous
/// call. The surrounding process must release it immediately after the call
/// returns and must never store it or share it across calls or threads.
pub struct LocationDescriptor {
    /// Name of the emitting function, in the foreign string convention.
    pub function_name: CText,
    /// Name of the emitting source file, in the foreign string convention.
    pub file_name: CText,
    /// Line number of the emitting call site.
    pub line_number: usize,
}

impl LocationDescriptor {
    /// Well-formedness: both texts obey the foreign string convention.
    pub open spec fn wf(self) -> bool {
        self.function_name.wf() && self.file_name.wf()
    }
}

/// One marshalled call to the foreign emit primitive.
pub struct EmitRequest {
    /// Call-site descriptor with a single-call lifetime.
    pub location: LocationDescriptor,
    /// Foreign severity code of the message.
    pub severity_code: i32,
    /// Logger name in the foreign string convention.
    pub logger_name: CText,
    /// Message text in the foreign string convention.
    pub message: CText,
}

impl EmitRequest {
    /// Well-formedness: every text obeys the foreign string convention.
    pub open spec fn wf(self) -> bool {
        self.location.wf() && self.logger_name.wf() && self.message.wf()
    }
}

impl LogContext {
    /// Marshals one change of a logger's severity for the foreign set-level
    /// primitive. The caller holds the state lock purely to serialize
    /// against concurrent configure/finalize: the state content is neither
    /// read nor needed, so the change is legal even while uninitialized (the
    /// foreign subsystem keeps its own default level machinery). Conversion
    /// fails, with no foreign call to make, exactly when the logger name
    /// holds an embedded terminator.
    pub fn set_logger_level(logger_name: &str, severity: LogSeverity) -> (r: Result<
        LevelRequest,
        LoggingError,
    >)
        ensures
            r is Ok <==> nul_free(logger_name.spec_bytes()),
            r matches Ok(req) ==> req.wf() && req.logger_name.interior()
                == logger_name.spec_bytes() && req.severity_code == severity.spec_code(),
            r is Err ==> r == Err::<LevelRequest, LoggingError>(LoggingError::StringConversion),
    {
        let name = match CText::new(logger_name) {
            Ok(t) => t,
            Err(e) => {
                return Err(e);
            },
        };
        Ok(LevelRequest { logger_name: name, severity_code: severity.code() })
    }

    /// Marshals one emission for the foreign emit primitive, under the state
    /// lock held across the whole call (the foreign emit path re-enters the
    /// output relay on the same thread, and thread-unsafe foreign state lies
    /// between the two). While uninitialized the emission is dropped
    /// silently, whatever the inputs: no foreign call, no error. While
    /// initialized the texts are caller-controlled and assumed pre-sanitized,
    /// so they must be free of embedded terminators.
    pub fn log(
        state: &GlobalLogState,
        fn_name: &str,
        file_name: &str,
        line_num: u32,
        name: &str,
        severity: LogSeverity,
        message: &str,
    ) -> (r: Option<EmitRequest>)
        requires
            state.initialized() ==> nul_free(fn_name.spec_bytes()) && nul_free(
                file_name.spec_bytes(),
            ) && nul_free(name.spec_bytes()) && nul_free(message.spec_bytes()),
        ensures
            r is Some == emit_reaches_foreign(state.initialized()),
            r matches Some(req) ==> req.wf() && req.location.function_name.interior()
                == fn_name.spec_bytes() && req.location.file_name.interior()
                == file_name.spec_bytes() && req.location.line_number == line_num as usize
                && req.severity_code == severity.spec_code() && req.logger_name.interior()
                == name.spec_bytes() && req.message.interior() == message.spec_bytes(),
    {
        if !state.is_initialized() {
            return None;
        }
        let log_function_name = CText::new(fn_name).unwrap();
        let log_file_name = CText::new(file_name).unwrap();
        let location = LocationDescriptor {
            function_name: log_function_name,
            file_name: log_file_name,
            line_number: line_num as usize,
        };
        let log_name = CText::new(name).unwrap();
        let log_message = CText::new(message).unwrap();
        Some(
            EmitRequest {
                location,
                severity_code: severity.code(),
                logger_name: log_name,
                message: log_message,
            },
        )
    }
}

/// Whether the lifecycle is initialized after `n` serialized initialize
/// attempts starting from the uninitialized state, each using a successful
/// foreign configure outcome.
pub open spec fn state_after_inits(n: nat) -> bool
    decreases n,
{
    if n == 0 {
        false
    } else {
        init_next(state_after_inits((n - 1) as nat), 0)
    }
}

/// Number of foreign configure invocations made during those `n` attempts.
pub open spec fn configures_during_inits(n: nat) -> nat
    decreases n,
{
    if n == 0 {
        0
    } else {
        configures_during_inits((n - 1) as nat) + (if init_configures(
            state_after_inits((n - 1) as nat),
        ) {
            1nat
        } else {
            0nat
        })
    }
}

proof fn lemma_state_after_inits(n: nat)
    ensures
        state_after_inits(n) == (n >= 1),
    decreases n,
{
    if n >= 1 {
        lemma_state_after_inits((n - 1) as nat);
    }
}

/// Law: in any serialized run of `n >= 1` initialize attempts starting from
/// the uninitialized state, with the foreign configure primitive succeeding,
/// exactly one foreign configure invocation occurs and every attempt returns
/// success.
pub proof fn lemma_initialize_once(n: nat)
    requires
        n >= 1,
    ensures
        configures_during_inits(n) == 1,
        forall|k: nat| k < n ==> #[trigger] init_ok(state_after_inits(k), 0),
    decreases n,
{
    lemma_state_after_inits((n - 1) as nat);
    if n == 1 {
        assert(configures_during_inits(0) == 0);
        assert(configures_during_inits(1) == 1);
    } else {
        lemma_initialize_once((n - 1) as nat);
    }
    assert forall|k: nat| k < n implies #[trigger] init_ok(state_after_inits(k), 0) by {
        lemma_state_after_inits(k);
    }
}

/// Law: the initialization flag is false before any initialize attempt, is
/// set by a successful initialize, and is never cleared by an initialize
/// attempt, whatever the configure outcome. Clearing it is the sole effect
/// of [`GlobalLogState::teardown`], whose `ensures` always leaves the state
/// uninitialized.
pub proof fn lemma_initialized_lifecycle(initialized: bool, configure_ret: i32)
    ensures
        !state_after_inits(0),
        init_next(false, 0) && init_ok(false, 0),
        initialized ==> init_next(initialized, configure_ret),
{
}

/// Law: teardown always leaves the state uninitialized (see the `ensures` of
/// [`GlobalLogState::teardown`]), and from that state a fresh initialize
/// attempt invokes the foreign configure primitive again, succeeds on a
/// successful outcome, and re-enables emission.
pub proof fn lemma_reinitialize_after_teardown()
    ensures
        init_configures(false),
        init_ok(false, 0),
        emit_reaches_foreign(init_next(false, 0)),
{
}

/// One serialized lifecycle operation, as the state lock admits them one at
/// a time.
pub enum LifecycleOp {
    /// An initialize attempt; the payload is the return code the foreign
    /// configure call reports when the attempt runs it.
    Initialize(i32),
    /// One guard destruction.
    Teardown,
}

/// Whether an initialize attempt with this operation's configure outcome
/// initializes an uninitialized lifecycle.
pub open spec fn is_successful_init(op: LifecycleOp) -> bool {
    op == LifecycleOp::Initialize(0)
}

/// Whether the operation is a teardown.
pub open spec fn is_teardown(op: LifecycleOp) -> bool {
    op is Teardown
}

/// Whether the lifecycle is initialized after this serialized operation,
/// given the state it found.
pub open spec fn op_next(initialized: bool, op: LifecycleOp) -> bool {
    match op {
        LifecycleOp::Initialize(configure_ret) => init_next(initialized, configure_ret),
        LifecycleOp::Teardown => false,
    }
}

/// Whether the lifecycle is initialized after running a whole serialized
/// operation sequence from the uninitialized state.
pub open spec fn trace_state(ops: Seq<LifecycleOp>) -> bool
    decreases ops.len(),
{
    if ops.len() == 0 {
        false
    } else {
        op_next(trace_state(ops.drop_last()), ops.last())
    }
}

/// Whether some successful initialize attempt in the sequence has no
/// teardown after it.
pub open spec fn successful_init_outlives_teardowns(ops: Seq<LifecycleOp>) -> bool {
    exists|i: int|
        0 <= i < ops.len() && is_successful_init(#[trigger] ops[i]) && (forall|j: int|
            i < j < ops.len() ==> !is_teardown(#[trigger] ops[j]))
}

/// Law: after any serialized sequence of initialize attempts and teardowns,
/// the lifecycle is initialized exactly when a successful initialize attempt
/// came after the last teardown. In particular the flag is cleared only by a
/// teardown, and a teardown clears it whatever came before.
pub proof fn lemma_trace_characterization(ops: Seq<LifecycleOp>)
    ensures
        trace_state(ops) <==> successful_init_outlives_teardowns(ops),
    decreases ops.len(),
{
    if ops.len() == 0 {
    } else {
        let pre = ops.drop_last();
        let n = ops.len() - 1;
        lemma_trace_characterization(pre);
        assert(forall|i: int| 0 <= i < n ==> pre[i] == ops[i]);
        match ops.last() {
            LifecycleOp::Teardown => {
                if successful_init_outlives_teardowns(ops) {
                    let i = choose|i: int|
                        0 <= i < ops.len() && is_successful_init(#[trigger] ops[i]) && (forall|
                            j: int,
                        |
                            i < j < ops.len() ==> !is_teardown(#[trigger] ops[j]));
                    assert(i < n ==> !is_teardown(ops[n]));
                    assert(false);
                }
            },
            LifecycleOp::Initialize(configure_ret) => {
                if configure_ret == 0 {
                    assert(is_successful_init(ops[n]));
                    assert(successful_init_outlives_teardowns(ops));
                } else {
                    if successful_init_outlives_teardowns(pre) {
                        let i = choose|i: int|
                            0 <= i < pre.len() && is_successful_init(#[trigger] pre[i]) && (forall|
                                j: int,
                            |
                                i < j < pre.len() ==> !is_teardown(#[trigger] pre[j]));
                        assert(is_successful_init(ops[i]));
                        assert(forall|j: int| i < j < ops.len() ==> !is_teardown(#[trigger] ops[j]));
                        assert(successful_init_outlives_teardowns(ops));
                    }
                    if successful_init_outlives_teardowns(ops) {
                        let i = choose|i: int|
                            0 <= i < ops.len() && is_successful_init(#[trigger] ops[i]) && (forall|
                                j: int,
                            |
                                i < j < ops.len() ==> !is_teardown(#[trigger] ops[j]));
                        assert(i != n);
                        assert(forall|j: int| i < j < pre.len() ==> !is_teardown(#[trigger] pre[j]));
                        assert(successful_init_outlives_teardowns(pre));
                    }
                }
            },
        }
    }
}

} // verus!
