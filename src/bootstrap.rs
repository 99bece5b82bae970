use vstd::prelude::*;

use crate::capability::{required_plugin, required_plugins, Capability, PLUGIN_COUNT};

verus! {

/// Where the start-up sequence stands.
#[derive(Clone, Copy, Debug, PartialEq, Eq, Structural)]
pub enum Stage {
    /// The builder exists and plugins are being attached to it.
    Configuring,
    /// The run loop was started and owns the thread.
    Running,
    /// The run loop returned normally: the application shut down.
    Exited,
    /// The run loop reported an error: the process is to be terminated.
    Aborted,
}

/// What the host reports to the start-up logic.
#[derive(Debug, PartialEq, Eq)]
pub enum Event {
    /// The process entered the application and a default builder was made.
    Launched,
    /// The host attached this plugin to the builder.
    PluginAttached(Capability),
    /// The run loop returned without an error.
    RunLoopClosed,
    /// The run loop returned this error.
    RunLoopFailed(String),
}

/// What the start-up logic asks the host to do next.
#[derive(Debug, PartialEq, Eq)]
pub enum Action {
    /// Attach the plugin that grants this capability to the builder.
    AttachPlugin(Capability),
    /// Hand the builder, with the application context, to the run loop.
    StartRunLoop,
    /// Return normally: the application has shut down.
    Exit,
    /// Terminate the process with a fatal diagnostic about this error.
    Abort(String),
    /// Nothing to do for this event.
    Idle,
}

/// The abstract state of the start-up sequence: the plugins attached so far,
/// in order, and the stage.
pub struct BootView {
    pub attached: Seq<Capability>,
    pub stage: Stage,
}

impl BootView {
    /// Plugins are attached in the required order, all of them before the run
    /// loop is started, and never more.
    pub open spec fn wf(self) -> bool {
        &&& self.attached.len() <= required_plugins().len()
        &&& self.attached =~= required_plugins().take(self.attached.len() as int)
        &&& (self.stage == Stage::Configuring) == (self.attached.len() < required_plugins().len())
    }
}

/// The state right after launch: no plugin attached.
pub open spec fn initial() -> BootView {
    BootView { attached: Seq::empty(), stage: Stage::Configuring }
}

/// The action that the `Launched` event asks for in state `s`.
pub open spec fn launch_action(s: BootView) -> Action {
    if s.stage == Stage::Configuring {
        Action::AttachPlugin(required_plugins()[s.attached.len() as int])
    } else {
        Action::Idle
    }
}

/// One transition: the next state and the action for event `e` in state `s`.
/// An event that does not fit the stage changes nothing and asks for nothing.
pub open spec fn next(s: BootView, e: Event) -> (BootView, Action) {
    match s.stage {
        Stage::Configuring => match e {
            Event::Launched => (s, launch_action(s)),
            Event::PluginAttached(c) => {
                if c == required_plugins()[s.attached.len() as int] {
                    let attached = s.attached.push(c);
                    if attached.len() == required_plugins().len() {
                        (BootView { attached, stage: Stage::Running }, Action::StartRunLoop)
                    } else {
                        (
                            BootView { attached, stage: Stage::Configuring },
                            Action::AttachPlugin(required_plugins()[attached.len() as int]),
                        )
                    }
                } else {
                    (s, Action::Idle)
                }
            },
            _ => (s, Action::Idle),
        },
        Stage::Running => match e {
            Event::RunLoopClosed => (BootView { stage: Stage::Exited, ..s }, Action::Exit),
            Event::RunLoopFailed(err) => (BootView { stage: Stage::Aborted, ..s }, Action::Abort(err)),
            _ => (s, Action::Idle),
        },
        _ => (s, Action::Idle),
    }
}

/// The start-up sequence of the application.
pub struct Bootstrap {
    attached: usize,
    stage: Stage,
}

impl View for Bootstrap {
    type V = BootView;

    closed spec fn view(&self) -> BootView {
        BootView {
            attached: required_plugins().take(self.attached as int),
            stage: self.stage,
        }
    }
}

impl Bootstrap {
    #[verifier::type_invariant]
    closed spec fn inv(&self) -> bool {
        &&& self.attached <= PLUGIN_COUNT
        &&& (self.stage == Stage::Configuring) == (self.attached < PLUGIN_COUNT)
    }

    /// The sequence right after launch, with no plugin attached.
    pub fn new() -> (r: Bootstrap)
        ensures
            r@ == initial(),
    {
        let r = Bootstrap { attached: 0, stage: Stage::Configuring };
        assert(r@.attached =~= Seq::<Capability>::empty());
        r
    }

    /// The current stage.
    pub fn stage(&self) -> (r: Stage)
        ensures
            r == self@.stage,
    {
        self.stage
    }

    /// How many plugins have been attached so far.
    pub fn attached_count(&self) -> (r: usize)
        ensures
            r == self@.attached.len(),
    {
        proof {
            use_type_invariant(self);
        }
        self.attached
    }

    /// Feeds one event and returns the action the host is to perform.
    pub fn step(&mut self, event: Event) -> (r: Action)
        ensures
            (final(self)@, r) == next(old(self)@, event),
            final(self)@.wf(),
    {
        proof {
            use_type_invariant(&*self);
        }
        let ghost s = self@;
        assert(s.attached.len() == self.attached);
        match self.stage {
            Stage::Configuring => match event {
                Event::Launched => Action::AttachPlugin(required_plugin(self.attached)),
                Event::PluginAttached(c) => {
                    if c == required_plugin(self.attached) {
                        let n = self.attached + 1;
                        if n == PLUGIN_COUNT {
                            *self = Bootstrap { attached: n, stage: Stage::Running };
                            assert(self@.attached =~= s.attached.push(c));
                            Action::StartRunLoop
                        } else {
                            *self = Bootstrap { attached: n, stage: Stage::Configuring };
                            assert(self@.attached =~= s.attached.push(c));
                            Action::AttachPlugin(required_plugin(n))
                        }
                    } else {
                        Action::Idle
                    }
                },
                _ => Action::Idle,
            },
            Stage::Running => match event {
                Event::RunLoopClosed => {
                    *self = Bootstrap { attached: self.attached, stage: Stage::Exited };
                    Action::Exit
                },
                Event::RunLoopFailed(err) => {
                    *self = Bootstrap { attached: self.attached, stage: Stage::Aborted };
                    Action::Abort(err)
                },
                _ => Action::Idle,
            },
            _ => Action::Idle,
        }
    }
}

} // verus!
