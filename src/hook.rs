use vstd::prelude::*;

use crate::config::Config;
use crate::ime::ImeActivator;
use crate::keyboard::{lemma_virtual_key_round_trip, vk_of, Key, Keyboard};
use crate::tap::{kind_of, next_state, reaction, step, KeyEvent, Reaction, TapState, Toggle};

verus! {

/// The system refused to register the keyboard interception.
#[derive(Clone, Copy, Debug, PartialEq, Eq, Structural)]
pub struct HookInstallError {
    /// The error code that the system gave.
    pub code: i32,
}

/// Registers and removes the process-wide low-level keyboard interception.
pub trait HookRegistrar {
    /// Registers the interception; on success, the handle that removes it.
    fn register(&self) -> Result<isize, HookInstallError>;

    fn unregister(&self, hook: isize);
}

/// The tap detector with the collaborators it drives.
pub struct HookEngine<I, K> {
    config: Config,
    ime: I,
    keyboard: K,
    tap: TapState,
}

impl<I: ImeActivator, K: Keyboard> HookEngine<I, K> {
    pub closed spec fn config_view(&self) -> Config {
        self.config
    }

    pub closed spec fn tap_view(&self) -> TapState {
        self.tap
    }

    /// An engine with fresh state: no key held, nothing seen.
    pub fn new(config: Config, ime: I, keyboard: K) -> (r: Self)
        ensures
            r.config_view() == config,
            r.tap_view() == TapState::initial(),
    {
        HookEngine { config, ime, keyboard, tap: TapState::new() }
    }

    pub fn config(&self) -> (r: Config)
        ensures
            r == self.config_view(),
    {
        self.config
    }

    pub fn tap_state(&self) -> (r: TapState)
        ensures
            r == self.tap_view(),
    {
        self.tap
    }

    /// Takes one intercepted event: updates the state and asks the input
    /// method and the keyboard for what the reaction names. Their failures
    /// are dropped: the event stream must go on.
    pub fn handle(&mut self, event: KeyEvent) -> (r: Reaction)
        ensures
            r == reaction(old(self).tap_view(), old(self).config_view(), event),
            final(self).tap_view() == next_state(
                old(self).tap_view(),
                old(self).config_view(),
                event,
            ),
            final(self).config_view() == old(self).config_view(),
    {
        let (tap, r) = step(self.tap, &self.config, event);
        self.tap = tap;
        match r.toggle {
            Toggle::Activate => {
                let _ = self.ime.activate();
            },
            Toggle::Deactivate => {
                let _ = self.ime.deactivate();
            },
            Toggle::Nothing => {},
        }
        if r.send_neutral {
            let _ = self.keyboard.send_vk_none();
        }
        r
    }
}

/// What the host holds, as plain values: the handle of the registered
/// interception, and the configuration and tap state the callback consults.
pub struct HostView {
    pub installed: Option<isize>,
    pub binding: Option<(Config, TapState)>,
}

impl HostView {
    pub open spec fn initial() -> HostView {
        HostView { installed: None, binding: None }
    }
}

/// The reaction of the host to `e`: none while nothing is bound.
pub open spec fn host_reaction(h: HostView, e: KeyEvent) -> Reaction {
    match h.binding {
        Some((c, t)) => reaction(t, c, e),
        None => Reaction::none(),
    }
}

/// The host after `e`.
pub open spec fn host_next(h: HostView, e: KeyEvent) -> HostView {
    match h.binding {
        Some((c, t)) => HostView { binding: Some((c, next_state(t, c, e))), ..h },
        None => h,
    }
}

/// The host after binding configuration `c`: the interception is kept as it
/// is and the tap state starts afresh.
pub open spec fn rebound(h: HostView, c: Config) -> HostView {
    HostView { binding: Some((c, TapState::initial())), ..h }
}

/// `after` and `r` are a possible outcome of installing once from `before`:
/// an installed interception is kept and reported as success; otherwise the
/// registration either succeeded and its handle is kept, or failed and
/// nothing changed.
pub open spec fn installs_once(
    before: HostView,
    after: HostView,
    r: Result<(), HookInstallError>,
) -> bool {
    &&& after.binding == before.binding
    &&& match before.installed {
        Some(h) => after.installed == Some(h) && r is Ok,
        None => (r is Ok && after.installed is Some) || (r is Err && after.installed is None),
    }
}

/// The single process-wide hook state: the registered interception, and the
/// engine that its callback drives.
pub struct HookHost<I, K> {
    hook: Option<isize>,
    engine: Option<HookEngine<I, K>>,
}

impl<I: ImeActivator, K: Keyboard> View for HookHost<I, K> {
    type V = HostView;

    closed spec fn view(&self) -> HostView {
        HostView {
            installed: self.hook,
            binding: match self.engine {
                Some(e) => Some((e.config, e.tap)),
                None => None,
            },
        }
    }
}

impl<I: ImeActivator, K: Keyboard> HookHost<I, K> {
    /// Nothing installed, nothing bound.
    pub fn new() -> (r: Self)
        ensures
            r@ == HostView::initial(),
    {
        HookHost { hook: None, engine: None }
    }

    pub fn is_installed(&self) -> (r: bool)
        ensures
            r == self@.installed is Some,
    {
        self.hook.is_some()
    }

    /// Registers the interception unless it already is: a second call
    /// succeeds without registering again.
    pub fn install_once<R: HookRegistrar>(&mut self, registrar: &R) -> (r: Result<
        (),
        HookInstallError,
    >)
        ensures
            installs_once(old(self)@, final(self)@, r),
    {
        if self.hook.is_some() {
            return Ok(());
        }
        let outcome = registrar.register();
        self.record_install(outcome)
    }

    /// Takes the outcome of a registration made while nothing was installed:
    /// a handle is kept, an error is handed back with nothing changed.
    pub fn record_install(&mut self, outcome: Result<isize, HookInstallError>) -> (r: Result<
        (),
        HookInstallError,
    >)
        requires
            old(self)@.installed is None,
        ensures
            match outcome {
                Ok(h) => r is Ok && final(self)@ == (HostView { installed: Some(h), ..old(self)@ }),
                Err(e) => r == Err::<(), HookInstallError>(e) && final(self)@ == old(self)@,
            },
    {
        match outcome {
            Ok(h) => {
                self.hook = Some(h);
                Ok(())
            },
            Err(e) => Err(e),
        }
    }

    /// Replaces the configuration and the collaborators that the callback
    /// uses, leaving the registration alone; the next event sees them.
    pub fn rebind(&mut self, config: Config, ime: I, keyboard: K)
        ensures
            final(self)@ == rebound(old(self)@, config),
    {
        self.engine = Some(HookEngine::new(config, ime, keyboard));
    }

    /// Takes one event as the system hands it to the callback.
    pub fn on_event(&mut self, code: i32, message: u32, vk: u16) -> (r: Reaction)
        ensures
            ({
                let e = KeyEvent { kind: kind_of(code, message), vk };
                &&& r == host_reaction(old(self)@, e)
                &&& final(self)@ == host_next(old(self)@, e)
            }),
    {
        let event = KeyEvent::from_hook(code, message, vk);
        match &mut self.engine {
            Some(engine) => engine.handle(event),
            None => Reaction { toggle: Toggle::Nothing, send_neutral: false },
        }
    }

    /// Removes the interception, if any, and drops the binding, so that the
    /// callback does nothing from now on. Harmless when nothing was installed.
    pub fn uninstall<R: HookRegistrar>(&mut self, registrar: &R)
        ensures
            final(self)@ == HostView::initial(),
    {
        if let Some(h) = self.hook {
            registrar.unregister(h);
        }
        self.hook = None;
        self.engine = None;
    }
}

/// Installs the interception if it is not yet, then binds `config` and the
/// collaborators with a fresh tap state. When the registration fails nothing
/// is bound anew.
pub fn init<I: ImeActivator, K: Keyboard, R: HookRegistrar>(
    host: &mut HookHost<I, K>,
    registrar: &R,
    config: Config,
    ime: I,
    keyboard: K,
) -> (r: Result<(), HookInstallError>)
    ensures
        match r {
            Ok(()) => {
                &&& final(host)@.installed is Some
                &&& old(host)@.installed is Some ==> final(host)@.installed == old(host)@.installed
                &&& final(host)@.binding == Some((config, TapState::initial()))
            },
            Err(_) => old(host)@.installed is None && final(host)@ == old(host)@,
        },
{
    host.install_once(registrar)?;
    host.rebind(config, ime, keyboard);
    Ok(())
}

/// Installing twice in succession: once the first call has succeeded, the
/// second one succeeds as well and leaves the host exactly as the first left
/// it, with the one interception that the first registered.
pub proof fn lemma_install_once_is_idempotent(
    h0: HostView,
    h1: HostView,
    r1: Result<(), HookInstallError>,
    h2: HostView,
    r2: Result<(), HookInstallError>,
)
    requires
        installs_once(h0, h1, r1),
        r1 is Ok,
        installs_once(h1, h2, r2),
    ensures
        h1.installed is Some,
        h2 == h1,
        r2 is Ok,
{
}

/// Rebinding keeps the registration and takes effect on the very next event:
/// whatever was bound before, the next event meets the new configuration with
/// a fresh state, so a tap of the new activate key switches the input method
/// on, and a tap of a key that is no longer watched switches nothing.
pub proof fn lemma_rebind_takes_effect(h: HostView, c: Config, e: KeyEvent, k: Key)
    ensures
        rebound(h, c).installed == h.installed,
        host_reaction(rebound(h, c), e) == reaction(TapState::initial(), c, e),
        c.is_running && c.wf() ==> host_reaction(
            host_next(rebound(h, c), KeyEvent::down(c.activate_key)),
            KeyEvent::up(c.activate_key),
        ).toggle == Toggle::Activate,
        k != c.activate_key && k != c.deactivate_key ==> host_reaction(
            host_next(rebound(h, c), KeyEvent::down(k)),
            KeyEvent::up(k),
        ) == Reaction::none(),
{
    lemma_virtual_key_round_trip(k, vk_of(c.activate_key));
    lemma_virtual_key_round_trip(k, vk_of(c.deactivate_key));
    lemma_virtual_key_round_trip(c.activate_key, vk_of(c.deactivate_key));
}

} // verus!
