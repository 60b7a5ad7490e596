use vstd::prelude::*;
use crate::config::{loaded_or_default, LastLapTimeConfig, SpeedConfig, WindowsConfig};
use crate::supervisor::{Action, DesiredState, OverlayKind, WindowProcesses};
use crate::units::SpeedUnits;

verus! {

/// The page shown in the control panel.
#[derive(Clone, Copy, Debug, PartialEq, Eq, Structural)]
pub enum Overlays {
    Home,
    Speed,
    LastLapTime,
}

/// The desired state that a configuration record expresses.
pub open spec fn desired_of(c: WindowsConfig) -> DesiredState {
    DesiredState { speed: c.speed_config.display, lastlaptime: c.lastlaptime_config.display }
}

/// The state of the control panel: the page on view, the configuration being
/// edited, and the overlay processes it supervises, each held by a handle `H`.
pub struct MainApp<H> {
    pub menu_option: Overlays,
    pub config: WindowsConfig,
    pub windows: WindowProcesses<H>,
}

impl<H> MainApp<H> {
    /// The control panel at start-up, given what was read from the persisted
    /// record (`None` when it was missing or unreadable): home page, nothing
    /// running.
    pub fn new(loaded: Option<WindowsConfig>) -> (r: Self)
        ensures
            r.menu_option == Overlays::Home,
            r.config == loaded_or_default(loaded),
            r.windows.speed is None,
            r.windows.lastlaptime is None,
    {
        MainApp {
            menu_option: Overlays::Home,
            config: WindowsConfig::from_loaded(loaded),
            windows: WindowProcesses::new(),
        }
    }

    /// Shows another page.
    pub fn select(&mut self, page: Overlays)
        ensures
            final(self).menu_option == page,
            final(self).config == old(self).config,
            final(self).windows == old(self).windows,
    {
        self.menu_option = page;
    }

    /// Which overlays the configuration wants running.
    pub fn desired(&self) -> (r: DesiredState)
        ensures
            r == desired_of(self.config),
    {
        DesiredState {
            speed: self.config.speed_config.display,
            lastlaptime: self.config.lastlaptime_config.display,
        }
    }

    /// Switches an overlay on or off in the configuration and returns the
    /// record to persist; the processes follow on the next `manage_overlays`.
    pub fn set_display(&mut self, kind: OverlayKind, on: bool) -> (r: WindowsConfig)
        ensures
            r == final(self).config,
            desired_of(r).wants(kind) == on,
            kind == OverlayKind::Speed ==> r == (WindowsConfig {
                speed_config: SpeedConfig { display: on, ..old(self).config.speed_config },
                ..old(self).config
            }),
            kind == OverlayKind::LastLapTime ==> r == (WindowsConfig {
                lastlaptime_config: LastLapTimeConfig {
                    display: on,
                    ..old(self).config.lastlaptime_config
                },
                ..old(self).config
            }),
            final(self).menu_option == old(self).menu_option,
            final(self).windows == old(self).windows,
    {
        match kind {
            OverlayKind::Speed => self.config.speed_config.display = on,
            OverlayKind::LastLapTime => self.config.lastlaptime_config.display = on,
        }
        self.config
    }

    /// Chooses the unit of the speed overlay and returns the record to persist.
    pub fn set_speed_units(&mut self, units: SpeedUnits) -> (r: WindowsConfig)
        ensures
            r == final(self).config,
            r == (WindowsConfig {
                speed_config: SpeedConfig { units, ..old(self).config.speed_config },
                ..old(self).config
            }),
            final(self).menu_option == old(self).menu_option,
            final(self).windows == old(self).windows,
    {
        self.config.speed_config.units = units;
        self.config
    }

    /// One reconciliation pass of the overlay processes against the
    /// configuration; the caller performs the returned actions.
    pub fn manage_overlays(&mut self) -> (r: Vec<Action<H>>)
        ensures
            r@ == old(self).windows.plan(desired_of(old(self).config)),
            final(self).windows == old(self).windows.reconciled(desired_of(old(self).config)),
            final(self).config == old(self).config,
            final(self).menu_option == old(self).menu_option,
    {
        let desired = self.desired();
        self.windows.reconcile(&desired)
    }

    /// Records the handle of an overlay launched for a `Spawn` action; gives
    /// the handle back if one was already held for that kind.
    pub fn record_spawn(&mut self, kind: OverlayKind, handle: H) -> (r: Option<H>)
        ensures
            final(self).windows == old(self).windows.recorded(kind, handle),
            r == (if old(self).windows.slot(kind) is None { None } else { Some(handle) }),
            final(self).config == old(self).config,
            final(self).menu_option == old(self).menu_option,
    {
        self.windows.record_spawn(kind, handle)
    }

    /// At exit: empties the process table and returns every handle, for the
    /// caller to terminate, so that no overlay outlives the control panel.
    pub fn on_exit(&mut self) -> (r: Vec<H>)
        ensures
            r@ == old(self).windows.live(),
            final(self).windows.speed is None,
            final(self).windows.lastlaptime is None,
            final(self).config == old(self).config,
    {
        self.windows.shutdown_all()
    }
}

} // verus!
