//! Lifecycle management for engine systems.
//!
//! A [`LifecycleManager`] walks a system through
//! `Created → Initializing → Initialized ⇄ Running → ShuttingDown → ShutDown`,
//! with `Error` reachable from anywhere. Every transition is checked: a
//! refused transition returns an error message and leaves the manager exactly
//! as it was.
use vstd::prelude::*;

verus! {

/// Represents the current state of a system or component lifecycle
#[derive(Debug, Clone, Copy, PartialEq, Eq, Structural)]
pub enum LifecycleState {
    /// System is created but not initialized
    Created,
    /// System is being initialized
    Initializing,
    /// System is initialized and ready
    Initialized,
    /// System is running/active
    Running,
    /// System is being shut down
    ShuttingDown,
    /// System is shut down
    ShutDown,
    /// System encountered an error
    Error,
}

impl LifecycleState {
    pub open spec fn spec_is_operational(self) -> bool {
        self == LifecycleState::Initialized || self == LifecycleState::Running
    }

    pub open spec fn spec_can_initialize(self) -> bool {
        self == LifecycleState::Created || self == LifecycleState::ShutDown || self
            == LifecycleState::Error
    }

    pub open spec fn spec_can_shutdown(self) -> bool {
        self == LifecycleState::Initialized || self == LifecycleState::Running || self
            == LifecycleState::Error
    }

    pub open spec fn spec_can_start(self) -> bool {
        self == LifecycleState::Initialized
    }

    pub open spec fn spec_can_stop(self) -> bool {
        self == LifecycleState::Running
    }

    /// The state's name as `{:?}` prints it.
    pub open spec fn spec_name(self) -> Seq<char> {
        match self {
            LifecycleState::Created => "Created"@,
            LifecycleState::Initializing => "Initializing"@,
            LifecycleState::Initialized => "Initialized"@,
            LifecycleState::Running => "Running"@,
            LifecycleState::ShuttingDown => "ShuttingDown"@,
            LifecycleState::ShutDown => "ShutDown"@,
            LifecycleState::Error => "Error"@,
        }
    }

    /// Check if the system is in a valid operational state
    pub fn is_operational(&self) -> (r: bool)
        ensures
            r == self.spec_is_operational(),
    {
        matches!(self, LifecycleState::Initialized | LifecycleState::Running)
    }

    /// Check if the system can be initialized
    pub fn can_initialize(&self) -> (r: bool)
        ensures
            r == self.spec_can_initialize(),
    {
        matches!(self, LifecycleState::Created | LifecycleState::ShutDown | LifecycleState::Error)
    }

    /// Check if the system can be shut down
    pub fn can_shutdown(&self) -> (r: bool)
        ensures
            r == self.spec_can_shutdown(),
    {
        matches!(self, LifecycleState::Initialized | LifecycleState::Running | LifecycleState::Error)
    }

    /// Check if the system can start running
    pub fn can_start(&self) -> (r: bool)
        ensures
            r == self.spec_can_start(),
    {
        matches!(self, LifecycleState::Initialized)
    }

    /// Check if the system can stop running
    pub fn can_stop(&self) -> (r: bool)
        ensures
            r == self.spec_can_stop(),
    {
        matches!(self, LifecycleState::Running)
    }

    /// The state's name as `{:?}` prints it (used in transition errors).
    pub fn name(&self) -> (r: &'static str)
        ensures
            r@ == self.spec_name(),
    {
        proof {
            reveal_strlit("Created");
            reveal_strlit("Initializing");
            reveal_strlit("Initialized");
            reveal_strlit("Running");
            reveal_strlit("ShuttingDown");
            reveal_strlit("ShutDown");
            reveal_strlit("Error");
        }
        match self {
            LifecycleState::Created => "Created",
            LifecycleState::Initializing => "Initializing",
            LifecycleState::Initialized => "Initialized",
            LifecycleState::Running => "Running",
            LifecycleState::ShuttingDown => "ShuttingDown",
            LifecycleState::ShutDown => "ShutDown",
            LifecycleState::Error => "Error",
        }
    }
}

/// The abstract content of a [`LifecycleManager`]: its state plus whether an
/// initialization or a shutdown has been begun and not yet completed.
pub struct LifecycleModel {
    pub state: LifecycleState,
    pub init_in_progress: bool,
    pub shutdown_in_progress: bool,
}

/// A model fresh from `new_with_state(state)`: no transition in progress.
pub open spec fn fresh_model(state: LifecycleState) -> LifecycleModel {
    LifecycleModel { state, init_in_progress: false, shutdown_in_progress: false }
}

/// A model that only changes its state.
pub open spec fn with_state(m: LifecycleModel, state: LifecycleState) -> LifecycleModel {
    LifecycleModel { state, ..m }
}

/// `"Cannot <verb> from state <state>"`.
pub open spec fn cannot_message(verb: Seq<char>, state: LifecycleState) -> Seq<char> {
    "Cannot "@ + verb + " from state "@ + state.spec_name()
}

/// `"Expected <expected> state, got <state>"`.
pub open spec fn expected_message(expected: Seq<char>, state: LifecycleState) -> Seq<char> {
    "Expected "@ + expected + " state, got "@ + state.spec_name()
}

/// What `begin_initialization` does to a manager: the new model, or the error.
pub open spec fn begin_initialization_outcome(m: LifecycleModel) -> Result<
    LifecycleModel,
    Seq<char>,
> {
    if m.init_in_progress {
        Err("Initialization already in progress"@)
    } else if !m.state.spec_can_initialize() {
        Err(cannot_message("initialize"@, m.state))
    } else {
        Ok(LifecycleModel { state: LifecycleState::Initializing, init_in_progress: true, ..m })
    }
}

/// What `complete_initialization` does to a manager.
pub open spec fn complete_initialization_outcome(m: LifecycleModel) -> Result<
    LifecycleModel,
    Seq<char>,
> {
    if !m.init_in_progress {
        Err("No initialization in progress"@)
    } else if m.state != LifecycleState::Initializing {
        Err(expected_message("Initializing"@, m.state))
    } else {
        Ok(LifecycleModel { state: LifecycleState::Initialized, init_in_progress: false, ..m })
    }
}

/// What `start` does to a manager.
pub open spec fn start_outcome(m: LifecycleModel) -> Result<LifecycleModel, Seq<char>> {
    if !m.state.spec_can_start() {
        Err(cannot_message("start"@, m.state))
    } else {
        Ok(with_state(m, LifecycleState::Running))
    }
}

/// What `stop` does to a manager.
pub open spec fn stop_outcome(m: LifecycleModel) -> Result<LifecycleModel, Seq<char>> {
    if !m.state.spec_can_stop() {
        Err(cannot_message("stop"@, m.state))
    } else {
        Ok(with_state(m, LifecycleState::Initialized))
    }
}

/// What `begin_shutdown` does to a manager.
pub open spec fn begin_shutdown_outcome(m: LifecycleModel) -> Result<LifecycleModel, Seq<char>> {
    if m.shutdown_in_progress {
        Err("Shutdown already in progress"@)
    } else if !m.state.spec_can_shutdown() {
        Err(cannot_message("shutdown"@, m.state))
    } else {
        Ok(LifecycleModel { state: LifecycleState::ShuttingDown, shutdown_in_progress: true, ..m })
    }
}

/// What `complete_shutdown` does to a manager.
pub open spec fn complete_shutdown_outcome(m: LifecycleModel) -> Result<
    LifecycleModel,
    Seq<char>,
> {
    if !m.shutdown_in_progress {
        Err("No shutdown in progress"@)
    } else if m.state != LifecycleState::ShuttingDown {
        Err(expected_message("ShuttingDown"@, m.state))
    } else {
        Ok(LifecycleModel { state: LifecycleState::ShutDown, shutdown_in_progress: false, ..m })
    }
}

/// The manager after `set_error`: in `Error`, with both in-progress marks released.
pub open spec fn error_model() -> LifecycleModel {
    fresh_model(LifecycleState::Error)
}

/// The well-formedness every reachable manager has: a pending initialization
/// means the state is `Initializing`, a pending shutdown means `ShuttingDown`.
pub open spec fn model_wf(m: LifecycleModel) -> bool {
    &&& m.init_in_progress ==> m.state == LifecycleState::Initializing
    &&& m.shutdown_in_progress ==> m.state == LifecycleState::ShuttingDown
}

/// How an exec result of a transition corresponds to its spec outcome.
pub open spec fn result_matches(
    r: Result<(), String>,
    outcome: Result<LifecycleModel, Seq<char>>,
    after: LifecycleModel,
) -> bool {
    match r {
        Ok(_) => outcome == Ok::<LifecycleModel, Seq<char>>(after),
        Err(e) => outcome == Err::<LifecycleModel, Seq<char>>(e@),
    }
}

/// Every transition keeps a well-formed manager well formed.
pub proof fn law_transitions_preserve_wf(m: LifecycleModel)
    requires
        model_wf(m),
    ensures
        begin_initialization_outcome(m) matches Ok(n) ==> model_wf(n),
        complete_initialization_outcome(m) matches Ok(n) ==> model_wf(n),
        start_outcome(m) matches Ok(n) ==> model_wf(n),
        stop_outcome(m) matches Ok(n) ==> model_wf(n),
        begin_shutdown_outcome(m) matches Ok(n) ==> model_wf(n),
        complete_shutdown_outcome(m) matches Ok(n) ==> model_wf(n),
        model_wf(error_model()),
        model_wf(fresh_model(m.state)),
{
}

/// Stopping undoes starting: a started manager that is stopped again is
/// exactly the manager it was before `start`.
pub proof fn law_stop_undoes_start(m: LifecycleModel)
    requires
        start_outcome(m) is Ok,
    ensures
        stop_outcome(start_outcome(m)->Ok_0) == Ok::<LifecycleModel, Seq<char>>(m),
{
}

/// Starting undoes stopping.
pub proof fn law_start_undoes_stop(m: LifecycleModel)
    requires
        stop_outcome(m) is Ok,
    ensures
        start_outcome(stop_outcome(m)->Ok_0) == Ok::<LifecycleModel, Seq<char>>(m),
{
}

/// Initialization cannot be begun twice: once begun, a second
/// `begin_initialization` is refused with "Initialization already in progress".
pub proof fn law_no_concurrent_initialization(m: LifecycleModel)
    requires
        begin_initialization_outcome(m) is Ok,
    ensures
        begin_initialization_outcome(begin_initialization_outcome(m)->Ok_0) == Err::<
            LifecycleModel,
            Seq<char>,
        >("Initialization already in progress"@),
{
}

/// Shutdown cannot be begun twice: once begun, a second `begin_shutdown` is
/// refused with "Shutdown already in progress".
pub proof fn law_no_concurrent_shutdown(m: LifecycleModel)
    requires
        begin_shutdown_outcome(m) is Ok,
    ensures
        begin_shutdown_outcome(begin_shutdown_outcome(m)->Ok_0) == Err::<
            LifecycleModel,
            Seq<char>,
        >("Shutdown already in progress"@),
{
}

/// A begun initialization can always be completed, and leaves the system
/// `Initialized` (operational and ready to start).
pub proof fn law_initialization_completes(m: LifecycleModel)
    requires
        begin_initialization_outcome(m) is Ok,
    ensures
        complete_initialization_outcome(begin_initialization_outcome(m)->Ok_0) matches Ok(n)
            && n.state == LifecycleState::Initialized && !n.init_in_progress
            && n.state.spec_is_operational() && n.state.spec_can_start(),
{
}

/// A begun shutdown can always be completed, and leaves the system `ShutDown`,
/// from where it may be initialized again.
pub proof fn law_shutdown_completes(m: LifecycleModel)
    requires
        begin_shutdown_outcome(m) is Ok,
    ensures
        complete_shutdown_outcome(begin_shutdown_outcome(m)->Ok_0) matches Ok(n)
            && n.state == LifecycleState::ShutDown && !n.shutdown_in_progress
            && n.state.spec_can_initialize(),
{
}

/// `set_error` releases every lock: from the error state a fresh
/// initialization and a shutdown are both accepted.
pub proof fn law_error_recovers()
    ensures
        begin_initialization_outcome(error_model()) is Ok,
        begin_shutdown_outcome(error_model()) is Ok,
{
}

/// A transition that is refused reports why, and only the transitions the
/// state predicates allow are accepted.
pub proof fn law_accepted_transitions_follow_predicates(m: LifecycleModel)
    ensures
        start_outcome(m) is Ok <==> m.state.spec_can_start(),
        stop_outcome(m) is Ok <==> m.state.spec_can_stop(),
        begin_initialization_outcome(m) is Ok <==> (!m.init_in_progress
            && m.state.spec_can_initialize()),
        begin_shutdown_outcome(m) is Ok <==> (!m.shutdown_in_progress
            && m.state.spec_can_shutdown()),
{
}

/// The documented full cycle: from any state that may be initialized, with
/// nothing in progress, initialize → start → stop → shut down all succeed and
/// end in `ShutDown`.
pub proof fn law_full_cycle(s: LifecycleState)
    requires
        s.spec_can_initialize(),
    ensures
        ({
            let m0 = fresh_model(s);
            let m1 = begin_initialization_outcome(m0)->Ok_0;
            let m2 = complete_initialization_outcome(m1)->Ok_0;
            let m3 = start_outcome(m2)->Ok_0;
            let m4 = stop_outcome(m3)->Ok_0;
            let m5 = begin_shutdown_outcome(m4)->Ok_0;
            let m6 = complete_shutdown_outcome(m5)->Ok_0;
            &&& begin_initialization_outcome(m0) is Ok
            &&& complete_initialization_outcome(m1) is Ok
            &&& start_outcome(m2) is Ok
            &&& stop_outcome(m3) is Ok
            &&& begin_shutdown_outcome(m4) is Ok
            &&& complete_shutdown_outcome(m5) is Ok
            &&& m6 == fresh_model(LifecycleState::ShutDown)
        }),
{
}

/// Lifecycle state manager.
///
/// Each transition method checks the current state; a refused transition
/// returns `Err(message)` and changes nothing.
#[derive(Debug)]
pub struct LifecycleManager {
    /// Current lifecycle state
    state: LifecycleState,
    /// An initialization has begun and not completed (prevents a second one)
    init_in_progress: bool,
    /// A shutdown has begun and not completed (prevents a second one)
    shutdown_in_progress: bool,
}

impl View for LifecycleManager {
    type V = LifecycleModel;

    closed spec fn view(&self) -> LifecycleModel {
        LifecycleModel {
            state: self.state,
            init_in_progress: self.init_in_progress,
            shutdown_in_progress: self.shutdown_in_progress,
        }
    }
}

impl LifecycleManager {
    #[verifier::type_invariant]
    closed spec fn wf(self) -> bool {
        model_wf(self@)
    }

    /// Create a new lifecycle manager with a specific state
    pub fn new_with_state(state: LifecycleState) -> (r: Self)
        ensures
            r@ == fresh_model(state),
    {
        LifecycleManager { state, init_in_progress: false, shutdown_in_progress: false }
    }

    /// Create a new lifecycle manager in Created state
    pub fn new() -> (r: Self)
        ensures
            r@ == fresh_model(LifecycleState::Created),
    {
        Self::new_with_state(LifecycleState::Created)
    }

    /// Get the current lifecycle state
    pub fn current_state(&self) -> (r: LifecycleState)
        ensures
            r == self@.state,
    {
        self.state
    }

    /// Check if the system is in an operational state
    pub fn is_operational(&self) -> (r: bool)
        ensures
            r == self@.state.spec_is_operational(),
    {
        self.current_state().is_operational()
    }

    /// Check if the system can be initialized
    pub fn can_initialize(&self) -> (r: bool)
        ensures
            r == self@.state.spec_can_initialize(),
    {
        self.current_state().can_initialize()
    }

    /// Check if the system can be shut down
    pub fn can_shutdown(&self) -> (r: bool)
        ensures
            r == self@.state.spec_can_shutdown(),
    {
        self.current_state().can_shutdown()
    }

    /// Check if the system can start running
    pub fn can_start(&self) -> (r: bool)
        ensures
            r == self@.state.spec_can_start(),
    {
        self.current_state().can_start()
    }

    /// Check if the system can stop running
    pub fn can_stop(&self) -> (r: bool)
        ensures
            r == self@.state.spec_can_stop(),
    {
        self.current_state().can_stop()
    }

    /// Transition to initializing state
    pub fn begin_initialization(&mut self) -> (r: Result<(), String>)
        ensures
            result_matches(r, begin_initialization_outcome(old(self)@), final(self)@),
            r is Err ==> final(self)@ == old(self)@,
    {
        proof {
            use_type_invariant(&*self);
        }
        if self.init_in_progress {
            return Err(text("Initialization already in progress"));
        }
        let current = self.current_state();
        if !current.can_initialize() {
            return Err(cannot(text("initialize"), current));
        }
        *self = LifecycleManager {
            state: LifecycleState::Initializing,
            init_in_progress: true,
            shutdown_in_progress: self.shutdown_in_progress,
        };
        Ok(())
    }

    /// Complete initialization
    pub fn complete_initialization(&mut self) -> (r: Result<(), String>)
        ensures
            result_matches(r, complete_initialization_outcome(old(self)@), final(self)@),
            r is Err ==> final(self)@ == old(self)@,
    {
        proof {
            use_type_invariant(&*self);
        }
        if !self.init_in_progress {
            return Err(text("No initialization in progress"));
        }
        let current = self.current_state();
        if current != LifecycleState::Initializing {
            return Err(expected(text("Initializing"), current));
        }
        *self = LifecycleManager {
            state: LifecycleState::Initialized,
            init_in_progress: false,
            shutdown_in_progress: self.shutdown_in_progress,
        };
        Ok(())
    }

    /// Transition to running state
    pub fn start(&mut self) -> (r: Result<(), String>)
        ensures
            result_matches(r, start_outcome(old(self)@), final(self)@),
            r is Err ==> final(self)@ == old(self)@,
    {
        proof {
            use_type_invariant(&*self);
        }
        let current = self.current_state();
        if !current.can_start() {
            return Err(cannot(text("start"), current));
        }
        self.state = LifecycleState::Running;
        Ok(())
    }

    /// Transition to stopped state
    pub fn stop(&mut self) -> (r: Result<(), String>)
        ensures
            result_matches(r, stop_outcome(old(self)@), final(self)@),
            r is Err ==> final(self)@ == old(self)@,
    {
        proof {
            use_type_invariant(&*self);
        }
        let current = self.current_state();
        if !current.can_stop() {
            return Err(cannot(text("stop"), current));
        }
        self.state = LifecycleState::Initialized;
        Ok(())
    }

    /// Begin shutdown
    pub fn begin_shutdown(&mut self) -> (r: Result<(), String>)
        ensures
            result_matches(r, begin_shutdown_outcome(old(self)@), final(self)@),
            r is Err ==> final(self)@ == old(self)@,
    {
        proof {
            use_type_invariant(&*self);
        }
        if self.shutdown_in_progress {
            return Err(text("Shutdown already in progress"));
        }
        let current = self.current_state();
        if !current.can_shutdown() {
            return Err(cannot(text("shutdown"), current));
        }
        *self = LifecycleManager {
            state: LifecycleState::ShuttingDown,
            init_in_progress: self.init_in_progress,
            shutdown_in_progress: true,
        };
        Ok(())
    }

    /// Complete shutdown
    pub fn complete_shutdown(&mut self) -> (r: Result<(), String>)
        ensures
            result_matches(r, complete_shutdown_outcome(old(self)@), final(self)@),
            r is Err ==> final(self)@ == old(self)@,
    {
        proof {
            use_type_invariant(&*self);
        }
        if !self.shutdown_in_progress {
            return Err(text("No shutdown in progress"));
        }
        let current = self.current_state();
        if current != LifecycleState::ShuttingDown {
            return Err(expected(text("ShuttingDown"), current));
        }
        *self = LifecycleManager {
            state: LifecycleState::ShutDown,
            init_in_progress: self.init_in_progress,
            shutdown_in_progress: false,
        };
        Ok(())
    }

    /// Transition to error state, releasing any in-progress initialization or
    /// shutdown. Returns `Err(e)` when an error `e` is given, `Ok` otherwise.
    pub fn set_error(&mut self, error: Option<String>) -> (r: Result<(), String>)
        ensures
            final(self)@ == error_model(),
            match error {
                Some(e) => r == Err::<(), String>(e),
                None => r is Ok,
            },
    {
        *self = LifecycleManager {
            state: LifecycleState::Error,
            init_in_progress: false,
            shutdown_in_progress: false,
        };
        if let Some(err) = error {
            return Err(err);
        }
        Ok(())
    }
}

impl Clone for LifecycleManager {
    /// A copy in the same state; an in-progress transition is not copied.
    fn clone(&self) -> (r: Self)
        ensures
            r@ == fresh_model(self@.state),
    {
        let current_state = self.current_state();
        Self::new_with_state(current_state)
    }
}

impl Default for LifecycleManager {
    fn default() -> (r: Self)
        ensures
            r@ == fresh_model(LifecycleState::Created),
    {
        Self::new()
    }
}

/// An owned copy of a string literal.
fn text(s: &str) -> (r: String)
    ensures
        r@ == s@,
{
    s.to_string()
}

/// `"Cannot <verb> from state <state>"`.
fn cannot(verb: String, state: LifecycleState) -> (r: String)
    ensures
        r@ == cannot_message(verb@, state),
{
    let mut msg = text("Cannot ");
    msg.append(verb.as_str());
    msg.append(" from state ");
    msg.append(state.name());
    proof {
        reveal_strlit("Cannot ");
        reveal_strlit(" from state ");
    }
    msg
}

/// `"Expected <expected> state, got <state>"`.
fn expected(what: String, state: LifecycleState) -> (r: String)
    ensures
        r@ == expected_message(what@, state),
{
    let mut msg = text("Expected ");
    msg.append(what.as_str());
    msg.append(" state, got ");
    msg.append(state.name());
    msg
}

/// A trait for objects that have a managed lifecycle
pub trait Lifecycle {
    /// Initialize the system
    /// The default implementation does nothing and succeeds.
    fn initialize(&mut self) -> (r: Result<(), String>)
        default_ensures
            r is Ok,
    {
        Ok(())
    }

    /// Start the system (transition to running state)
    /// The default implementation does nothing and succeeds.
    fn start(&mut self) -> (r: Result<(), String>)
        default_ensures
            r is Ok,
    {
        Ok(())
    }

    /// Stop the system (transition from running to initialized)
    /// The default implementation does nothing and succeeds.
    fn stop(&mut self) -> (r: Result<(), String>)
        default_ensures
            r is Ok,
    {
        Ok(())
    }

    /// Shutdown the system
    /// The default implementation does nothing and succeeds.
    fn shutdown(&mut self) -> (r: Result<(), String>)
        default_ensures
            r is Ok,
    {
        Ok(())
    }

    /// Get the lifecycle manager for this system
    fn lifecycle(&self) -> &LifecycleManager;
}

} // verus!
