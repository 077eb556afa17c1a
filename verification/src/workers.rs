//! The workers that keep an eye on devices and on batteries.
//!
//! The battery worker joins two sources. Notifications of a running AACP session
//! are preferred; while there are none, Bluetooth LE advertisements are scanned.
use crate::battery::AacpBatteryUpdate;
use crate::domain::{AirPodsBattery, BatteryLevel};
use crate::ipc::{BatteryStatus, DeviceInfo, DeviceView, UNKNOWN_PERCENT};
use crate::power::{payload, PowerBridge};
use crate::stream::since;
use vstd::prelude::*;

verus! {

/// The number of failed scans in a row after which old values are withdrawn.
pub const BATTERY_FAILURES_BEFORE_INVALIDATION: u8 = 2;

/// The interval at which values are published anew and scans are started.
pub const BATTERY_REFRESH_INTERVAL_S: u64 = 30;

/// The interval at which devices are looked for.
pub const INVENTORY_INTERVAL_S: u64 = 5;

/// The age from which on the value of the case counts as an old one.
pub const CASE_FRESH_TIMEOUT_NS: u64 = 90_000_000_000;

/// The selected device and whether it is connected.
#[derive(Debug)]
pub struct SelectedDeviceConnection {
    /// The Bluetooth address of the selected device.
    pub address: String,
    /// Whether BlueZ reports it as connected.
    pub connected: bool,
}

/// The model of a `SelectedDeviceConnection`.
pub struct ConnectionView {
    pub address: Seq<char>,
    pub connected: bool,
}

impl View for SelectedDeviceConnection {
    type V = ConnectionView;

    open spec fn view(&self) -> ConnectionView {
        ConnectionView { address: self.address@, connected: self.connected }
    }
}

impl Clone for SelectedDeviceConnection {
    /// A copy.
    fn clone(&self) -> (connection: SelectedDeviceConnection)
        ensures
            connection@ == self@,
    {
        SelectedDeviceConnection { address: self.address.clone(), connected: self.connected }
    }
}

impl Default for SelectedDeviceConnection {
    /// No device.
    fn default() -> (connection: SelectedDeviceConnection)
        ensures
            connection@ == (ConnectionView { address: Seq::empty(), connected: false }),
    {
        SelectedDeviceConnection { address: String::new(), connected: false }
    }
}

/// The model of a connection that may not be known yet.
pub open spec fn connection_view(connection: Option<SelectedDeviceConnection>) -> Option<
    ConnectionView,
> {
    match connection {
        Some(connection) => Some(connection@),
        None => None,
    }
}

/// Whether two connections are equal.
fn same_connection(
    left: &Option<SelectedDeviceConnection>,
    right: &Option<SelectedDeviceConnection>,
) -> (same: bool)
    ensures
        same == (connection_view(*left) == connection_view(*right)),
{
    match (left, right) {
        (None, None) => true,
        (Some(left), Some(right)) => left.address == right.address && left.connected
            == right.connected,
        _ => false,
    }
}

/// The value of the case, with the time at which it was received.
#[derive(Clone, Copy, Debug, PartialEq, Eq, Structural)]
pub struct CachedCase {
    /// The percentage.
    pub percent: i16,
    /// Whether the case was charging.
    pub charging: bool,
    /// When the value was received.
    pub observed_ns: u64,
}

/// What an AACP session tells the battery worker.
#[derive(Clone, Copy, Debug, PartialEq, Eq, Structural)]
pub enum AacpBatteryEvent {
    /// A notification, which may hold some of the values only.
    Update(AacpBatteryUpdate),
    /// The session has ended.
    SessionEnded,
}

/// The address of a connection, empty where it is not known.
pub open spec fn address_of(connection: Option<ConnectionView>) -> Seq<char> {
    match connection {
        Some(connection) => connection.address,
        None => Seq::empty(),
    }
}

/// Whether the selected device is known to be connected.
pub open spec fn is_up(connection: Option<ConnectionView>) -> bool {
    connection matches Some(connection) && connection.connected
}

/// Whether the selected device is known not to be connected.
pub open spec fn is_down(connection: Option<ConnectionView>) -> bool {
    connection matches Some(connection) && !connection.connected
}

/// The address of a connection, empty where it is not known.
pub fn selected_address(connection: &Option<SelectedDeviceConnection>) -> (address: &str)
    ensures
        address@ == address_of(connection_view(*connection)),
{
    match connection {
        Some(connection) => connection.address.as_str(),
        None => {
            proof {
                reveal_strlit("");
            }
            ""
        },
    }
}

/// Whether the selected device is connected, `None` where that is not known.
pub fn selected_connected(connection: &Option<SelectedDeviceConnection>) -> (connected: Option<bool>)
    ensures
        connected == Some(true) <==> is_up(connection_view(*connection)),
        connected == Some(false) <==> is_down(connection_view(*connection)),
{
    match connection {
        Some(connection) => Some(connection.connected),
        None => None,
    }
}

/// The percentage of a level, unknown where the level has none.
pub open spec fn percent_of(level: BatteryLevel) -> i16 {
    match level.percent {
        Some(percent) => percent as i16,
        None => UNKNOWN_PERCENT,
    }
}

fn level_percent(level: BatteryLevel) -> (percent: i16)
    ensures
        percent == percent_of(level),
{
    match level.percent {
        Some(percent) => percent as i16,
        None => UNKNOWN_PERCENT,
    }
}

/// A status with the remembered value of the case. It is an old one where that is
/// asked for, or from a certain age on.
pub open spec fn with_cached_case(
    battery: BatteryStatus,
    cached: Option<CachedCase>,
    force_stale: bool,
    now_ns: u64,
) -> BatteryStatus {
    match cached {
        None => BatteryStatus {
            case_percent: UNKNOWN_PERCENT,
            case_charging: false,
            case_stale: true,
            ..battery
        },
        Some(cached) => BatteryStatus {
            case_percent: cached.percent,
            case_charging: cached.charging,
            case_stale: force_stale || since(cached.observed_ns, now_ns) >= CASE_FRESH_TIMEOUT_NS,
            ..battery
        },
    }
}

/// What is remembered of the case after a level was received for it.
pub open spec fn remembered_case(
    cached: Option<CachedCase>,
    level: BatteryLevel,
    now_ns: u64,
) -> Option<CachedCase> {
    match level.percent {
        Some(percent) => Some(
            CachedCase { percent: percent as i16, charging: level.charging, observed_ns: now_ns },
        ),
        None => cached,
    }
}

/// A status after a level was received for the case: a level with a percentage is a
/// fresh value, one without leaves the remembered value, as an old one.
pub open spec fn with_case_level(
    battery: BatteryStatus,
    cached: Option<CachedCase>,
    level: BatteryLevel,
    now_ns: u64,
) -> BatteryStatus {
    match level.percent {
        Some(percent) => BatteryStatus {
            case_percent: percent as i16,
            case_charging: level.charging,
            case_stale: false,
            ..battery
        },
        None => with_cached_case(battery, cached, true, now_ns),
    }
}

/// A status whose case value has grown older: an old value never becomes a fresh one.
pub open spec fn refreshed(battery: BatteryStatus, cached: Option<CachedCase>, now_ns: u64) ->
    BatteryStatus {
    let current = with_cached_case(battery, cached, false, now_ns);
    BatteryStatus { case_stale: current.case_stale || battery.case_stale, ..current }
}

/// A status after a notification: the values that it does not hold stay.
pub open spec fn with_update(
    battery: BatteryStatus,
    cached: Option<CachedCase>,
    update: AacpBatteryUpdate,
    now_ns: u64,
) -> BatteryStatus {
    let left = match update.left {
        Some(level) => BatteryStatus {
            left_percent: percent_of(level),
            left_charging: level.charging,
            ..battery
        },
        None => battery,
    };
    let right = match update.right {
        Some(level) => BatteryStatus {
            right_percent: percent_of(level),
            right_charging: level.charging,
            ..left
        },
        None => left,
    };
    match update.case {
        Some(level) => with_case_level(right, cached, level, now_ns),
        None => right,
    }
}

/// What is remembered of the case after a notification.
pub open spec fn case_after_update(
    cached: Option<CachedCase>,
    update: AacpBatteryUpdate,
    now_ns: u64,
) -> Option<CachedCase> {
    match update.case {
        Some(level) => remembered_case(cached, level, now_ns),
        None => cached,
    }
}

/// The status of a scanned advertisement, with the remembered value of the case
/// where the advertisement holds none.
pub open spec fn scanned_status(
    left: BatteryLevel,
    right: BatteryLevel,
    case: BatteryLevel,
    cached: Option<CachedCase>,
    now_ns: u64,
) -> BatteryStatus {
    with_case_level(
        BatteryStatus {
            left_percent: percent_of(left),
            left_charging: left.charging,
            right_percent: percent_of(right),
            right_charging: right.charging,
            ..BatteryStatus::none()
        },
        cached,
        case,
        now_ns,
    )
}

/// Puts the remembered value of the case into a status.
pub fn apply_cached_case(
    battery: &mut BatteryStatus,
    cached_case: Option<CachedCase>,
    force_stale: bool,
    now_ns: u64,
)
    ensures
        *final(battery) == with_cached_case(*old(battery), cached_case, force_stale, now_ns),
{
    match cached_case {
        None => {
            battery.case_percent = UNKNOWN_PERCENT;
            battery.case_charging = false;
            battery.case_stale = true;
        },
        Some(cached) => {
            battery.case_percent = cached.percent;
            battery.case_charging = cached.charging;
            battery.case_stale = force_stale || now_ns.saturating_sub(cached.observed_ns)
                >= CASE_FRESH_TIMEOUT_NS;
        },
    }
}

/// Marks the value of the case as an old one where its time has come.
pub fn refresh_case_freshness(
    battery: &mut BatteryStatus,
    cached_case: Option<CachedCase>,
    now_ns: u64,
)
    ensures
        *final(battery) == refreshed(*old(battery), cached_case, now_ns),
{
    let was_stale = battery.case_stale;
    apply_cached_case(battery, cached_case, false, now_ns);
    battery.case_stale = battery.case_stale || was_stale;
}

/// The status that shows nothing but the remembered value of the case.
pub fn cached_case_status(cached_case: Option<CachedCase>, force_stale: bool, now_ns: u64) -> (
battery: BatteryStatus)
    ensures
        battery == with_cached_case(BatteryStatus::none(), cached_case, force_stale, now_ns),
{
    let mut battery = BatteryStatus::unavailable();
    apply_cached_case(&mut battery, cached_case, force_stale, now_ns);
    battery
}

/// Puts a received level of the case into a status and remembers it.
pub fn apply_case_level(
    battery: &mut BatteryStatus,
    level: BatteryLevel,
    cached_case: &mut Option<CachedCase>,
    now_ns: u64,
)
    ensures
        *final(battery) == with_case_level(*old(battery), *old(cached_case), level, now_ns),
        *final(cached_case) == remembered_case(*old(cached_case), level, now_ns),
{
    match level.percent {
        Some(percent) => {
            let cached = CachedCase {
                percent: percent as i16,
                charging: level.charging,
                observed_ns: now_ns,
            };
            *cached_case = Some(cached);
            battery.case_percent = cached.percent;
            battery.case_charging = cached.charging;
            battery.case_stale = false;
        },
        None => {
            apply_cached_case(battery, *cached_case, true, now_ns);
        },
    }
}

/// Puts a received level into the percentage and the charging flag of an earbud.
pub fn apply_level(percent: &mut i16, charging: &mut bool, level: BatteryLevel)
    ensures
        *final(percent) == percent_of(level),
        *final(charging) == level.charging,
{
    *percent = level_percent(level);
    *charging = level.charging;
}

/// Puts a notification into a status; the values that it does not hold stay.
pub fn apply_aacp_update(
    battery: &mut BatteryStatus,
    update: AacpBatteryUpdate,
    cached_case: &mut Option<CachedCase>,
    now_ns: u64,
)
    ensures
        *final(battery) == with_update(*old(battery), *old(cached_case), update, now_ns),
        *final(cached_case) == case_after_update(*old(cached_case), update, now_ns),
{
    match update.left {
        Some(level) => {
            apply_level(&mut battery.left_percent, &mut battery.left_charging, level);
        },
        None => {},
    }
    match update.right {
        Some(level) => {
            apply_level(&mut battery.right_percent, &mut battery.right_charging, level);
        },
        None => {},
    }
    match update.case {
        Some(level) => {
            apply_case_level(battery, level, cached_case, now_ns);
        },
        None => {},
    }
}

/// The status of a scanned advertisement.
pub fn battery_status(
    battery: &AirPodsBattery,
    cached_case: &mut Option<CachedCase>,
    now_ns: u64,
) -> (status: BatteryStatus)
    ensures
        status == scanned_status(
            battery.left,
            battery.right,
            battery.case,
            *old(cached_case),
            now_ns,
        ),
        *final(cached_case) == remembered_case(*old(cached_case), battery.case, now_ns),
{
    let none = BatteryStatus::unavailable();
    let mut status = BatteryStatus {
        left_percent: level_percent(battery.left),
        left_charging: battery.left.charging,
        right_percent: level_percent(battery.right),
        right_charging: battery.right.charging,
        case_percent: none.case_percent,
        case_charging: none.case_charging,
        case_stale: none.case_stale,
    };
    apply_case_level(&mut status, battery.case, cached_case, now_ns);
    status
}

/// What happens to the battery worker.
#[derive(Debug)]
pub enum BatteryEvent {
    /// The shutdown signal changed; nobody can signal any more, or this was
    /// signalled.
    ShutdownChanged { closed: bool, shutdown: bool },
    /// The connection of the selected device was reported.
    ConnectionChanged(Option<SelectedDeviceConnection>),
    /// Nobody reports connections any more.
    ConnectionClosed,
    /// An AACP session tells something.
    Aacp(AacpBatteryEvent),
    /// No AACP session can tell anything any more.
    AacpClosed,
    /// A scan is over; `None` says that it failed.
    ScanFinished { generation: u64, battery: Option<AirPodsBattery> },
    /// It is time to publish anew.
    RefreshDue,
}

/// What the battery worker does next.
#[derive(Clone, Copy, Debug, PartialEq, Eq, Structural)]
pub enum BatteryAction {
    /// Nothing.
    Nothing,
    /// It publishes a status.
    Publish(BatteryStatus),
    /// It starts the scan with the given number.
    Scan { generation: u64 },
    /// It ends, and removes every battery from the power bridge.
    Stop,
}

/// The battery worker.
#[derive(Debug)]
pub struct BatteryWorker {
    /// The number of failed scans in a row.
    pub consecutive_failures: u8,
    /// The status that AACP notifications gave, while they are preferred.
    pub precise_battery: Option<BatteryStatus>,
    /// The connection of the selected device, where it is known.
    pub selected_connection: Option<SelectedDeviceConnection>,
    /// The remembered value of the case.
    pub cached_case: Option<CachedCase>,
    /// Whether AACP sessions can still tell something.
    pub aacp_events_open: bool,
    /// Whether the latest scan is still running.
    pub scan_in_progress: bool,
    /// The number of the latest scan.
    pub scan_generation: u64,
}

/// The model of a `BatteryWorker`.
pub struct WorkerView {
    pub failures: u8,
    pub precise: Option<BatteryStatus>,
    pub connection: Option<ConnectionView>,
    pub case: Option<CachedCase>,
    pub aacp_open: bool,
    pub scanning: bool,
    pub generation: u64,
}

impl View for BatteryWorker {
    type V = WorkerView;

    open spec fn view(&self) -> WorkerView {
        WorkerView {
            failures: self.consecutive_failures,
            precise: self.precise_battery,
            connection: connection_view(self.selected_connection),
            case: self.cached_case,
            aacp_open: self.aacp_events_open,
            scanning: self.scan_in_progress,
            generation: self.scan_generation,
        }
    }
}

/// The number that follows the number of a scan.
pub open spec fn next_generation(generation: u64) -> u64 {
    if generation == u64::MAX {
        0
    } else {
        (generation + 1) as u64
    }
}

/// A number with one more, up to the largest.
pub open spec fn one_more_failure(failures: u8) -> u8 {
    if failures == u8::MAX {
        failures
    } else {
        (failures + 1) as u8
    }
}

impl WorkerView {
    /// The worker without what it knows of the earlier device.
    pub open spec fn forgotten(self) -> WorkerView {
        WorkerView {
            failures: 0,
            precise: None,
            case: None,
            scanning: false,
            generation: next_generation(self.generation),
            ..self
        }
    }

    /// The worker that starts a scan.
    pub open spec fn scan_started(self) -> (WorkerView, BatteryAction) {
        let generation = next_generation(self.generation);
        (WorkerView { scanning: true, generation, ..self }, BatteryAction::Scan { generation })
    }

    /// The worker once its connection is known: with a connected device it makes
    /// sure that there is a source of values; without one it withdraws them.
    pub open spec fn connection_known(self) -> (WorkerView, BatteryAction) {
        if is_up(self.connection) {
            if self.precise is None && !self.scanning {
                self.scan_started()
            } else {
                (self, BatteryAction::Nothing)
            }
        } else {
            (
                WorkerView { failures: 0, precise: None, case: None, ..self },
                BatteryAction::Publish(BatteryStatus::none()),
            )
        }
    }

    /// The worker after a connection was reported.
    pub open spec fn connection_changed(self, next: Option<ConnectionView>) -> (
        WorkerView,
        BatteryAction,
    ) {
        let moved = WorkerView { connection: next, ..self };
        if next == self.connection {
            (self, BatteryAction::Nothing)
        } else if address_of(next) != address_of(self.connection) {
            moved.forgotten().connection_known()
        } else {
            moved.connection_known()
        }
    }

    /// The worker once AACP gives no values any more: it goes back to scanning.
    pub open spec fn without_aacp(self) -> (WorkerView, BatteryAction) {
        if !is_up(self.connection) {
            (self, BatteryAction::Publish(BatteryStatus::none()))
        } else if !self.scanning {
            self.scan_started()
        } else {
            (self, BatteryAction::Nothing)
        }
    }

    /// The worker after a notification, which a device that is known not to be
    /// connected cannot have sent. `current` is the status last published.
    pub open spec fn updated(
        self,
        update: AacpBatteryUpdate,
        current: BatteryStatus,
        now_ns: u64,
    ) -> (WorkerView, BatteryAction) {
        if is_down(self.connection) {
            (self, BatteryAction::Nothing)
        } else {
            let base = match self.precise {
                Some(battery) => battery,
                None => current,
            };
            let case = case_after_update(self.case, update, now_ns);
            let battery = refreshed(with_update(base, self.case, update, now_ns), case, now_ns);
            (
                WorkerView { failures: 0, precise: Some(battery), case, ..self },
                BatteryAction::Publish(battery),
            )
        }
    }

    /// The worker after a scan. Only the latest scan counts, and only while AACP
    /// gives no values and the device is connected.
    pub open spec fn scan_finished(
        self,
        generation: u64,
        battery: Option<AirPodsBattery>,
        now_ns: u64,
    ) -> (WorkerView, BatteryAction) {
        let over = WorkerView { scanning: false, ..self };
        if generation != self.generation {
            (self, BatteryAction::Nothing)
        } else if self.precise is Some || !is_up(self.connection) {
            (over, BatteryAction::Nothing)
        } else {
            match battery {
                Some(battery) => (
                    WorkerView {
                        failures: 0,
                        case: remembered_case(self.case, battery.case, now_ns),
                        ..over
                    },
                    BatteryAction::Publish(
                        scanned_status(
                            battery.left,
                            battery.right,
                            battery.case,
                            self.case,
                            now_ns,
                        ),
                    ),
                ),
                None => {
                    let failures = one_more_failure(self.failures);
                    (
                        WorkerView { failures, ..over },
                        if failures >= BATTERY_FAILURES_BEFORE_INVALIDATION {
                            BatteryAction::Publish(
                                with_cached_case(BatteryStatus::none(), self.case, true, now_ns),
                            )
                        } else {
                            BatteryAction::Nothing
                        },
                    )
                },
            }
        }
    }

    /// The worker when it is time to publish anew.
    pub open spec fn refresh_due(self, now_ns: u64) -> (WorkerView, BatteryAction) {
        match self.precise {
            Some(battery) => {
                let battery = refreshed(battery, self.case, now_ns);
                (WorkerView { precise: Some(battery), ..self }, BatteryAction::Publish(battery))
            },
            None => if is_up(self.connection) && !self.scanning {
                self.scan_started()
            } else {
                (self, BatteryAction::Nothing)
            },
        }
    }

    /// The worker after an event.
    pub open spec fn after(self, event: BatteryEvent, current: BatteryStatus, now_ns: u64) -> (
        WorkerView,
        BatteryAction,
    ) {
        match event {
            BatteryEvent::ShutdownChanged { closed, shutdown } => (
                self,
                if closed || shutdown {
                    BatteryAction::Stop
                } else {
                    BatteryAction::Nothing
                },
            ),
            BatteryEvent::ConnectionChanged(next) => self.connection_changed(connection_view(next)),
            BatteryEvent::ConnectionClosed => WorkerView {
                connection: None,
                ..self
            }.connection_known(),
            BatteryEvent::Aacp(AacpBatteryEvent::Update(update)) => self.updated(
                update,
                current,
                now_ns,
            ),
            BatteryEvent::Aacp(AacpBatteryEvent::SessionEnded) => WorkerView {
                failures: 0,
                precise: None,
                ..self
            }.without_aacp(),
            BatteryEvent::AacpClosed => WorkerView {
                aacp_open: false,
                precise: None,
                ..self
            }.without_aacp(),
            BatteryEvent::ScanFinished { generation, battery } => self.scan_finished(
                generation,
                battery,
                now_ns,
            ),
            BatteryEvent::RefreshDue => self.refresh_due(now_ns),
        }
    }
}

impl BatteryWorker {
    /// A worker that begins with the connection that is known.
    pub fn new(selected_connection: Option<SelectedDeviceConnection>) -> (worker: BatteryWorker)
        ensures
            worker@ == (WorkerView {
                failures: 0,
                precise: None,
                connection: connection_view(selected_connection),
                case: None,
                aacp_open: true,
                scanning: false,
                generation: 0,
            }),
    {
        BatteryWorker {
            consecutive_failures: 0,
            precise_battery: None,
            selected_connection,
            cached_case: None,
            aacp_events_open: true,
            scan_in_progress: false,
            scan_generation: 0,
        }
    }

    fn start_scan(&mut self) -> (action: BatteryAction)
        ensures
            (final(self)@, action) == old(self)@.scan_started(),
    {
        self.scan_generation = self.scan_generation.wrapping_add(1);
        self.scan_in_progress = true;
        BatteryAction::Scan { generation: self.scan_generation }
    }

    fn connection_known(&mut self) -> (action: BatteryAction)
        ensures
            (final(self)@, action) == old(self)@.connection_known(),
    {
        if selected_connected(&self.selected_connection) == Some(true) {
            if self.precise_battery.is_none() && !self.scan_in_progress {
                return self.start_scan();
            }
            BatteryAction::Nothing
        } else {
            self.precise_battery = None;
            self.cached_case = None;
            self.consecutive_failures = 0;
            BatteryAction::Publish(BatteryStatus::unavailable())
        }
    }

    fn connection_changed(&mut self, next: Option<SelectedDeviceConnection>) -> (action:
        BatteryAction)
        ensures
            (final(self)@, action) == old(self)@.connection_changed(connection_view(next)),
    {
        if same_connection(&next, &self.selected_connection) {
            return BatteryAction::Nothing;
        }
        let target_changed = !crate::text::same_text(
            selected_address(&next),
            selected_address(&self.selected_connection),
        );
        self.selected_connection = next;
        if target_changed {
            self.scan_generation = self.scan_generation.wrapping_add(1);
            self.scan_in_progress = false;
            self.precise_battery = None;
            self.cached_case = None;
            self.consecutive_failures = 0;
        }
        self.connection_known()
    }

    fn without_aacp(&mut self) -> (action: BatteryAction)
        ensures
            (final(self)@, action) == old(self)@.without_aacp(),
    {
        if selected_connected(&self.selected_connection) != Some(true) {
            return BatteryAction::Publish(BatteryStatus::unavailable());
        }
        if !self.scan_in_progress {
            return self.start_scan();
        }
        BatteryAction::Nothing
    }

    fn updated(&mut self, update: AacpBatteryUpdate, current: BatteryStatus, now_ns: u64) -> (action:
        BatteryAction)
        ensures
            (final(self)@, action) == old(self)@.updated(update, current, now_ns),
    {
        if selected_connected(&self.selected_connection) == Some(false) {
            return BatteryAction::Nothing;
        }
        let mut battery = match self.precise_battery {
            Some(battery) => battery,
            None => current,
        };
        apply_aacp_update(&mut battery, update, &mut self.cached_case, now_ns);
        refresh_case_freshness(&mut battery, self.cached_case, now_ns);
        self.precise_battery = Some(battery);
        self.consecutive_failures = 0;
        BatteryAction::Publish(battery)
    }

    fn scan_finished(&mut self, generation: u64, battery: Option<AirPodsBattery>, now_ns: u64) -> (
    action: BatteryAction)
        ensures
            (final(self)@, action) == old(self)@.scan_finished(generation, battery, now_ns),
    {
        if generation != self.scan_generation {
            return BatteryAction::Nothing;
        }
        self.scan_in_progress = false;
        if self.precise_battery.is_some() || selected_connected(&self.selected_connection) != Some(
            true,
        ) {
            return BatteryAction::Nothing;
        }
        match battery {
            Some(battery) => {
                self.consecutive_failures = 0;
                let status = battery_status(&battery, &mut self.cached_case, now_ns);
                BatteryAction::Publish(status)
            },
            None => {
                self.consecutive_failures = self.consecutive_failures.saturating_add(1);
                if self.consecutive_failures >= BATTERY_FAILURES_BEFORE_INVALIDATION {
                    return BatteryAction::Publish(
                        cached_case_status(self.cached_case, true, now_ns),
                    );
                }
                BatteryAction::Nothing
            },
        }
    }

    fn refresh_due(&mut self, now_ns: u64) -> (action: BatteryAction)
        ensures
            (final(self)@, action) == old(self)@.refresh_due(now_ns),
    {
        match self.precise_battery {
            Some(mut battery) => {
                refresh_case_freshness(&mut battery, self.cached_case, now_ns);
                self.precise_battery = Some(battery);
                BatteryAction::Publish(battery)
            },
            None => {
                if selected_connected(&self.selected_connection) == Some(true)
                    && !self.scan_in_progress {
                    return self.start_scan();
                }
                BatteryAction::Nothing
            },
        }
    }

    /// Takes note of an event and decides what to do; `current` is the status last
    /// published.
    pub fn battery_loop(&mut self, event: BatteryEvent, current: BatteryStatus, now_ns: u64) -> (
    action: BatteryAction)
        ensures
            (final(self)@, action) == old(self)@.after(event, current, now_ns),
    {
        match event {
            BatteryEvent::ShutdownChanged { closed, shutdown } => if closed || shutdown {
                BatteryAction::Stop
            } else {
                BatteryAction::Nothing
            },
            BatteryEvent::ConnectionChanged(next) => self.connection_changed(next),
            BatteryEvent::ConnectionClosed => {
                self.selected_connection = None;
                self.connection_known()
            },
            BatteryEvent::Aacp(AacpBatteryEvent::Update(update)) => self.updated(
                update,
                current,
                now_ns,
            ),
            BatteryEvent::Aacp(AacpBatteryEvent::SessionEnded) => {
                self.precise_battery = None;
                self.consecutive_failures = 0;
                self.without_aacp()
            },
            BatteryEvent::AacpClosed => {
                self.aacp_events_open = false;
                self.precise_battery = None;
                self.without_aacp()
            },
            BatteryEvent::ScanFinished { generation, battery } => self.scan_finished(
                generation,
                battery,
                now_ns,
            ),
            BatteryEvent::RefreshDue => self.refresh_due(now_ns),
        }
    }
}

/// The last update for the power bridge, where the worker ends: it removes every
/// battery.
pub fn ending_update(action: &BatteryAction, bridge: &PowerBridge) -> (update: Option<Vec<u8>>)
    ensures
        match update {
            Some(update) => action is Stop && update@ == payload(BatteryStatus::none()),
            None => action !is Stop,
        },
{
    match action {
        BatteryAction::Stop => Some(bridge.invalidate()),
        _ => None,
    }
}

/// Whether one of the devices is the selected one and connected.
pub open spec fn selected_is_connected(devices: Seq<DeviceView>) -> bool {
    exists|i: int| 0 <= i < devices.len() && #[trigger] devices[i].selected && devices[i].connected
}

/// The connection to report after a look at the devices, where it differs from the
/// one that was reported last.
pub fn inventory_connection(
    devices: &Vec<DeviceInfo>,
    selected: &str,
    reported: &Option<SelectedDeviceConnection>,
) -> (connection: Option<SelectedDeviceConnection>)
    ensures
        ({
            let current = ConnectionView {
                address: selected@,
                connected: selected_is_connected(crate::ipc::device_views(devices@)),
            };
            connection_view(connection) == if connection_view(*reported) == Some(current) {
                None
            } else {
                Some(current)
            }
        }),
{
    let ghost views = crate::ipc::device_views(devices@);
    let mut connected = false;
    for i in 0..devices.len()
        invariant
            views == crate::ipc::device_views(devices@),
            connected == exists|j: int|
                0 <= j < i && #[trigger] views[j].selected && views[j].connected,
    {
        assert(views[i as int] == devices@[i as int]@);
        if devices[i].selected && devices[i].connected {
            assert(views[i as int].selected && views[i as int].connected);
            connected = true;
        }
    }
    let current = Some(SelectedDeviceConnection { address: selected.to_owned(), connected });
    if same_connection(reported, &current) {
        None
    } else {
        current
    }
}

/// Whether the percentages that a worker holds are in range, and it holds none of
/// a device that is known not to be connected.
pub open spec fn sound(worker: WorkerView) -> bool {
    &&& worker.precise matches Some(battery) ==> battery.in_range()
    &&& worker.case matches Some(cached) ==> 0 <= cached.percent <= 100
    &&& is_down(worker.connection) ==> worker.precise is None && worker.case is None
}

/// Whether the percentages that an event brings are in range.
pub open spec fn sound_event(event: BatteryEvent) -> bool {
    match event {
        BatteryEvent::Aacp(AacpBatteryEvent::Update(update)) => update.in_range(),
        BatteryEvent::ScanFinished { battery: Some(battery), .. } => battery.left.in_range()
            && battery.right.in_range() && battery.case.in_range(),
        _ => true,
    }
}

/// Whatever happens, the worker holds and publishes percentages that are unknown or
/// between 0 and 100.
pub proof fn law_published_percentages(
    worker: WorkerView,
    event: BatteryEvent,
    current: BatteryStatus,
    now_ns: u64,
)
    requires
        sound(worker),
        sound_event(event),
        current.in_range(),
    ensures
        sound(worker.after(event, current, now_ns).0),
        worker.after(event, current, now_ns).1 matches BatteryAction::Publish(battery)
            ==> battery.in_range(),
{
}

/// While the selected device is known not to be connected, nothing but the status
/// without values is published.
pub proof fn law_disconnected_shows_nothing(
    worker: WorkerView,
    event: BatteryEvent,
    current: BatteryStatus,
    now_ns: u64,
)
    requires
        sound(worker),
        is_down(worker.after(event, current, now_ns).0.connection),
    ensures
        worker.after(event, current, now_ns).1 matches BatteryAction::Publish(battery) ==> battery
            == BatteryStatus::none(),
        worker.after(event, current, now_ns).1 !is Scan,
{
}

/// A device that stops being connected has its values withdrawn at once, and nothing
/// of them is remembered.
pub proof fn law_disconnection_withdraws_values(
    worker: WorkerView,
    next: Option<SelectedDeviceConnection>,
    current: BatteryStatus,
    now_ns: u64,
)
    requires
        connection_view(next) != worker.connection,
        !is_up(connection_view(next)),
    ensures
        ({
            let (after, action) = worker.after(
                BatteryEvent::ConnectionChanged(next),
                current,
                now_ns,
            );
            &&& action == BatteryAction::Publish(BatteryStatus::none())
            &&& after.precise is None
            &&& after.case is None
            &&& after.failures == 0
        }),
{
}

/// Another device begins without anything that is known of the earlier one, and no
/// scan that runs counts for it.
pub proof fn law_devices_do_not_mix(
    worker: WorkerView,
    next: Option<SelectedDeviceConnection>,
    current: BatteryStatus,
    now_ns: u64,
)
    requires
        address_of(connection_view(next)) != address_of(worker.connection),
    ensures
        ({
            let after = worker.after(BatteryEvent::ConnectionChanged(next), current, now_ns).0;
            &&& after.precise is None
            &&& after.case is None
            &&& after.failures == 0
            &&& after.generation != worker.generation
        }),
{
}

/// Notifications go before scans: while they give values, a scan changes none of
/// them and publishes nothing.
pub proof fn law_notifications_go_before_scans(
    worker: WorkerView,
    generation: u64,
    battery: Option<AirPodsBattery>,
    current: BatteryStatus,
    now_ns: u64,
)
    requires
        worker.precise is Some,
    ensures
        ({
            let (after, action) = worker.after(
                BatteryEvent::ScanFinished { generation, battery },
                current,
                now_ns,
            );
            &&& action is Nothing
            &&& after.precise == worker.precise
            &&& after.case == worker.case
        }),
{
}

/// A scan that is not the latest one changes nothing.
pub proof fn law_old_scans_are_ignored(
    worker: WorkerView,
    generation: u64,
    battery: Option<AirPodsBattery>,
    current: BatteryStatus,
    now_ns: u64,
)
    requires
        generation != worker.generation,
    ensures
        worker.after(BatteryEvent::ScanFinished { generation, battery }, current, now_ns) == (
            worker,
            BatteryAction::Nothing,
        ),
{
}

/// A scan starts only for a connected device that AACP gives no values for, and only
/// where no scan for that device is running. It is then the latest one.
pub proof fn law_one_scan_at_a_time(
    worker: WorkerView,
    event: BatteryEvent,
    current: BatteryStatus,
    now_ns: u64,
)
    ensures
        ({
            let (after, action) = worker.after(event, current, now_ns);
            action matches BatteryAction::Scan { generation } ==> {
                &&& is_up(after.connection)
                &&& after.precise is None
                &&& after.scanning
                &&& after.generation == generation
                &&& generation != worker.generation
                &&& worker.scanning ==> address_of(after.connection) != address_of(
                    worker.connection,
                )
            }
        }),
{
}

/// One failed scan withdraws nothing; the second one in a row withdraws the values of
/// the earbuds and leaves that of the case as an old one.
pub proof fn law_one_failure_is_tolerated(worker: WorkerView, current: BatteryStatus, now_ns: u64)
    requires
        is_up(worker.connection),
        worker.precise is None,
        worker.failures == 0,
    ensures
        ({
            let failure = BatteryEvent::ScanFinished {
                generation: worker.generation,
                battery: None,
            };
            let (once, first) = worker.after(failure, current, now_ns);
            let (twice, second) = once.after(failure, current, now_ns);
            &&& first is Nothing
            &&& second == BatteryAction::Publish(
                with_cached_case(BatteryStatus::none(), worker.case, true, now_ns),
            )
            &&& twice.case == worker.case
        }),
{
}

/// Without a new value, the value of the case does not change, and once it is an old
/// one it stays so.
pub proof fn law_staleness_lasts(
    battery: BatteryStatus,
    cached: Option<CachedCase>,
    now_ns: u64,
    later_ns: u64,
)
    requires
        now_ns <= later_ns,
    ensures
        ({
            let now = refreshed(battery, cached, now_ns);
            let later = refreshed(now, cached, later_ns);
            &&& now.case_stale ==> later.case_stale
            &&& later.case_percent == now.case_percent
            &&& later.case_charging == now.case_charging
            &&& later == refreshed(battery, cached, later_ns)
        }),
{
}

/// A notification changes only the values that it holds.
pub proof fn law_partial_updates_keep_the_rest(
    battery: BatteryStatus,
    cached: Option<CachedCase>,
    update: AacpBatteryUpdate,
    now_ns: u64,
)
    ensures
        ({
            let after = with_update(battery, cached, update, now_ns);
            &&& update.left is None ==> after.left_percent == battery.left_percent
                && after.left_charging == battery.left_charging
            &&& update.right is None ==> after.right_percent == battery.right_percent
                && after.right_charging == battery.right_charging
            &&& update.case is None ==> after.case_percent == battery.case_percent
                && after.case_charging == battery.case_charging && after.case_stale
                == battery.case_stale
        }),
{
}

/// Whether an earbud shows a level: its percentage, -1 where it has none, and its charging flag.
pub open spec fn shows_level(percent: i16, charging: bool, level: BatteryLevel) -> bool {
    &&& level.percent matches Some(value) ==> percent == value
    &&& level.percent is None ==> percent == -1
    &&& charging == level.charging
}

/// Whether a status shows what is remembered of the case: its value, or no value as an old one.
pub open spec fn shows_remembered(battery: BatteryStatus, cached: Option<CachedCase>) -> bool {
    match cached {
        Some(cached) => battery.case_percent == cached.percent && battery.case_charging
            == cached.charging,
        None => battery.case_percent == -1 && !battery.case_charging && battery.case_stale,
    }
}

/// Whether a remembered value has become an old one: after 90 seconds.
pub open spec fn is_old(cached: Option<CachedCase>, now_ns: u64) -> bool {
    cached matches Some(cached) ==> now_ns - cached.observed_ns >= 90_000_000_000
}

/// A notification is published at once, unless the device is known not to be connected. Each
/// earbud that it speaks of shows its level, and each other one shows what was held of it: the
/// values of the notifications before, or what was published where there were none.
pub proof fn law_notifications_keep_what_they_do_not_hold(
    worker: &mut BatteryWorker,
    update: AacpBatteryUpdate,
    current: BatteryStatus,
    now_ns: u64,
    action: BatteryAction,
)
    requires
        call_ensures(
            BatteryWorker::battery_loop,
            (worker, BatteryEvent::Aacp(AacpBatteryEvent::Update(update)), current, now_ns),
            action,
        ),
    ensures
        ({
            let down = old(worker).selected_connection is Some
                && !old(worker).selected_connection->0.connected;
            let held = match old(worker).precise_battery {
                Some(battery) => battery,
                None => current,
            };
            let shown = action->Publish_0;
            &&& down ==> action is Nothing && final(worker)@ == old(worker)@
            &&& !down ==> {
                &&& action is Publish
                &&& final(worker).precise_battery == Some(shown)
                &&& final(worker).consecutive_failures == 0
                &&& update.left is None ==> shown.left_percent == held.left_percent
                    && shown.left_charging == held.left_charging
                &&& update.right is None ==> shown.right_percent == held.right_percent
                    && shown.right_charging == held.right_charging
                &&& update.left matches Some(level) ==> shows_level(
                    shown.left_percent,
                    shown.left_charging,
                    level,
                )
                &&& update.right matches Some(level) ==> shows_level(
                    shown.right_percent,
                    shown.right_charging,
                    level,
                )
                &&& final(worker)@.connection == old(worker)@.connection
                &&& final(worker).scan_in_progress == old(worker).scan_in_progress
                &&& final(worker).scan_generation == old(worker).scan_generation
                &&& final(worker).aacp_events_open == old(worker).aacp_events_open
            }
        }),
{
    let (after, done) = old(worker)@.updated(update, current, now_ns);
    assert(final(worker)@ == after && action == done);
    assert(final(worker)@.precise == final(worker).precise_battery);
}

/// A level of the case with a percentage is shown as a fresh value and remembered with its time.
/// Without one, the remembered value is shown: as an old one where the case said that it has no
/// value, and otherwise once it is 90 seconds old or was shown as an old one before.
pub proof fn law_the_case_is_remembered(
    worker: &mut BatteryWorker,
    update: AacpBatteryUpdate,
    current: BatteryStatus,
    now_ns: u64,
    action: BatteryAction,
)
    requires
        call_ensures(
            BatteryWorker::battery_loop,
            (worker, BatteryEvent::Aacp(AacpBatteryEvent::Update(update)), current, now_ns),
            action,
        ),
        old(worker).selected_connection is None || old(worker).selected_connection->0.connected,
    ensures
        ({
            let held = match old(worker).precise_battery {
                Some(battery) => battery,
                None => current,
            };
            let shown = action->Publish_0;
            &&& update.case is Some && update.case->0.percent is Some ==> {
                &&& shown.case_percent == update.case->0.percent->0
                &&& shown.case_charging == update.case->0.charging
                &&& !shown.case_stale
                &&& final(worker).cached_case == Some(
                    CachedCase {
                        percent: shown.case_percent,
                        charging: shown.case_charging,
                        observed_ns: now_ns,
                    },
                )
            }
            &&& update.case is None || update.case->0.percent is None ==> {
                &&& final(worker).cached_case == old(worker).cached_case
                &&& shows_remembered(shown, old(worker).cached_case)
            }
            &&& update.case is Some && update.case->0.percent is None ==> shown.case_stale
            &&& update.case is None ==> (shown.case_stale <==> held.case_stale || is_old(
                old(worker).cached_case,
                now_ns,
            ))
        }),
{
    let (after, done) = old(worker)@.updated(update, current, now_ns);
    assert(final(worker)@ == after && action == done);
    assert(final(worker)@.case == final(worker).cached_case);
}

/// Two notifications add up: what the first one says of an earbud stands behind the second one,
/// unless that one speaks of the same earbud.
pub proof fn law_notifications_add_up(
    first: &mut BatteryWorker,
    update: AacpBatteryUpdate,
    current: BatteryStatus,
    now_ns: u64,
    action: BatteryAction,
    second: &mut BatteryWorker,
    next: AacpBatteryUpdate,
    then_current: BatteryStatus,
    later_ns: u64,
    then_action: BatteryAction,
)
    requires
        old(first).selected_connection is Some && old(first).selected_connection->0.connected,
        call_ensures(
            BatteryWorker::battery_loop,
            (first, BatteryEvent::Aacp(AacpBatteryEvent::Update(update)), current, now_ns),
            action,
        ),
        *old(second) == *final(first),
        call_ensures(
            BatteryWorker::battery_loop,
            (second, BatteryEvent::Aacp(AacpBatteryEvent::Update(next)), then_current, later_ns),
            then_action,
        ),
    ensures
        then_action is Publish,
        update.left is Some && next.left is None ==> shows_level(
            then_action->Publish_0.left_percent,
            then_action->Publish_0.left_charging,
            update.left->0,
        ),
        update.right is Some && next.right is None ==> shows_level(
            then_action->Publish_0.right_percent,
            then_action->Publish_0.right_charging,
            update.right->0,
        ),
{
    law_notifications_keep_what_they_do_not_hold(first, update, current, now_ns, action);
    law_notifications_keep_what_they_do_not_hold(second, next, then_current, later_ns, then_action);
    assert(final(first)@.connection == old(first)@.connection);
}

/// The number of a scan that comes a number of scans later; numbers begin anew behind the
/// largest one.
pub open spec fn counted_on(generation: u64, scans: int) -> int {
    (generation + scans) % 0x1_0000_0000_0000_0000
}

/// A changed connection is followed at once. A device that is not connected has its values
/// withdrawn. Another device begins with nothing known and with a scan of its own. The same
/// device keeps its values, and is scanned where there are none and no scan is running.
pub proof fn law_connections_are_followed(
    worker: &mut BatteryWorker,
    next: Option<SelectedDeviceConnection>,
    current: BatteryStatus,
    now_ns: u64,
    action: BatteryAction,
)
    requires
        call_ensures(
            BatteryWorker::battery_loop,
            (worker, BatteryEvent::ConnectionChanged(next), current, now_ns),
            action,
        ),
    ensures
        ({
            let known = old(worker).selected_connection;
            let unchanged = (next is None && known is None) || (next is Some && known is Some
                && next->0.address@ == known->0.address@ && next->0.connected
                == known->0.connected);
            let old_address = if known is Some {
                known->0.address@
            } else {
                Seq::empty()
            };
            let new_address = if next is Some {
                next->0.address@
            } else {
                Seq::empty()
            };
            let connected = next is Some && next->0.connected;
            let moved = new_address != old_address;
            &&& unchanged ==> action is Nothing && final(worker)@ == old(worker)@
            &&& !unchanged ==> final(worker)@.connection == connection_view(next)
            &&& !unchanged && !connected ==> {
                &&& action is Publish
                &&& action->Publish_0.left_percent == -1 && action->Publish_0.right_percent == -1
                    && action->Publish_0.case_percent == -1 && action->Publish_0.case_stale
                &&& final(worker).precise_battery is None && final(worker).cached_case is None
                &&& final(worker).consecutive_failures == 0
                &&& moved ==> !final(worker).scan_in_progress && final(worker).scan_generation
                    == counted_on(old(worker).scan_generation, 1)
                &&& !moved ==> final(worker).scan_in_progress == old(worker).scan_in_progress
                    && final(worker).scan_generation == old(worker).scan_generation
            }
            &&& connected && moved ==> {
                &&& action is Scan && action->generation == final(worker).scan_generation
                &&& final(worker).scan_in_progress
                &&& final(worker).precise_battery is None && final(worker).cached_case is None
                &&& final(worker).consecutive_failures == 0
                &&& final(worker).scan_generation == counted_on(old(worker).scan_generation, 2)
            }
            &&& !unchanged && connected && !moved ==> {
                &&& final(worker).precise_battery == old(worker).precise_battery
                &&& final(worker).cached_case == old(worker).cached_case
                &&& final(worker).consecutive_failures == old(worker).consecutive_failures
                &&& action is Scan <==> old(worker).precise_battery is None
                    && !old(worker).scan_in_progress
                &&& action is Scan || action is Nothing
                &&& action is Scan ==> action->generation == final(worker).scan_generation
                    && final(worker).scan_generation
                        == counted_on(old(worker).scan_generation, 1)
                            && final(worker).scan_in_progress
            }
        }),
{
    let (after, done) = old(worker)@.connection_changed(connection_view(next));
    assert(final(worker)@ == after && action == done);
    assert(final(worker)@.precise == final(worker).precise_battery);
    assert(final(worker)@.case == final(worker).cached_case);
}

/// Once nobody reports connections, none is known and nothing is shown.
pub proof fn law_without_reports_nothing_is_shown(
    worker: &mut BatteryWorker,
    current: BatteryStatus,
    now_ns: u64,
    action: BatteryAction,
)
    requires
        call_ensures(
            BatteryWorker::battery_loop,
            (worker, BatteryEvent::ConnectionClosed, current, now_ns),
            action,
        ),
    ensures
        action is Publish && action->Publish_0.left_percent == -1 && action->Publish_0.right_percent
            == -1 && action->Publish_0.case_percent == -1,
        final(worker).selected_connection is None && final(worker).precise_battery is None
            && final(worker).cached_case is None && final(worker).consecutive_failures == 0,
{
    assert(final(worker)@.connection is None && final(worker)@.precise is None);
    assert(final(worker)@.case is None && final(worker)@.failures == 0);
}

/// Once a session has ended, or no session can tell anything any more, its values are not
/// preferred: a connected device is scanned, unless a scan is running, and without one nothing
/// is shown. What is remembered of the case stays.
pub proof fn law_scans_take_over_from_sessions(
    worker: &mut BatteryWorker,
    ended: bool,
    current: BatteryStatus,
    now_ns: u64,
    action: BatteryAction,
)
    requires
        call_ensures(
            BatteryWorker::battery_loop,
            (
                worker,
                if ended {
                    BatteryEvent::Aacp(AacpBatteryEvent::SessionEnded)
                } else {
                    BatteryEvent::AacpClosed
                },
                current,
                now_ns,
            ),
            action,
        ),
    ensures
        ({
            let connected = old(worker).selected_connection is Some
                && old(worker).selected_connection->0.connected;
            &&& final(worker).precise_battery is None
            &&& final(worker).cached_case == old(worker).cached_case
            &&& final(worker)@.connection == old(worker)@.connection
            &&& ended ==> final(worker).consecutive_failures == 0 && final(worker).aacp_events_open
                == old(worker).aacp_events_open
            &&& !ended ==> !final(worker).aacp_events_open
            &&& !connected ==> action is Publish && action->Publish_0.left_percent == -1
                && action->Publish_0.right_percent == -1 && action->Publish_0.case_percent == -1
            &&& connected && old(worker).scan_in_progress ==> action is Nothing
            &&& connected && !old(worker).scan_in_progress ==> action is Scan && action->generation
                == final(worker).scan_generation && final(worker).scan_in_progress
                    && final(worker).scan_generation == counted_on(old(worker).scan_generation, 1)
        }),
{
    let event = if ended {
        BatteryEvent::Aacp(AacpBatteryEvent::SessionEnded)
    } else {
        BatteryEvent::AacpClosed
    };
    let (after, done) = old(worker)@.after(event, current, now_ns);
    assert(final(worker)@ == after && action == done);
    assert(final(worker)@.precise == final(worker).precise_battery);
    assert(final(worker)@.case == final(worker).cached_case);
}

/// A scan counts only where it is the latest one, no session gives values and the device is
/// connected. What it found is then published as it is; the case shows its fresh value, or the
/// remembered one as an old one. A failure is tolerated once; from the second one in a row on,
/// the earbuds are unknown and the case shows what is remembered, as an old value.
pub proof fn law_scans_are_published_while_they_count(
    worker: &mut BatteryWorker,
    generation: u64,
    battery: Option<AirPodsBattery>,
    current: BatteryStatus,
    now_ns: u64,
    action: BatteryAction,
)
    requires
        call_ensures(
            BatteryWorker::battery_loop,
            (worker, BatteryEvent::ScanFinished { generation, battery }, current, now_ns),
            action,
        ),
    ensures
        ({
            let latest = generation == old(worker).scan_generation;
            let counts = latest && old(worker).precise_battery is None
                && old(worker).selected_connection is Some
                    && old(worker).selected_connection->0.connected;
            let shown = action->Publish_0;
            &&& !latest ==> action is Nothing && final(worker)@ == old(worker)@
            &&& latest ==> !final(worker).scan_in_progress
            &&& final(worker).precise_battery == old(worker).precise_battery
            &&& !counts ==> action is Nothing
                && final(worker).cached_case == old(worker).cached_case
                    && final(worker).consecutive_failures == old(worker).consecutive_failures
            &&& counts && battery is Some ==> {
                &&& action is Publish && final(worker).consecutive_failures == 0
                &&& shows_level(shown.left_percent, shown.left_charging, battery->0.left)
                &&& shows_level(shown.right_percent, shown.right_charging, battery->0.right)
                &&& battery->0.case.percent is Some ==> shown.case_percent
                    == battery->0.case.percent->0 && shown.case_charging
                    == battery->0.case.charging && !shown.case_stale && final(worker).cached_case
                    == Some(
                    CachedCase {
                        percent: shown.case_percent,
                        charging: shown.case_charging,
                        observed_ns: now_ns,
                    },
                )
                &&& battery->0.case.percent is None ==> shows_remembered(
                    shown,
                    old(worker).cached_case,
                ) && shown.case_stale && final(worker).cached_case == old(worker).cached_case
            }
            &&& counts && battery is None ==> {
                &&& final(worker).cached_case == old(worker).cached_case
                &&& old(worker).consecutive_failures < 255 ==> final(worker).consecutive_failures
                    == old(worker).consecutive_failures + 1
                &&& action is Publish <==> old(worker).consecutive_failures >= 1
                &&& action is Publish || action is Nothing
                &&& action is Publish ==> shown.left_percent == -1 && !shown.left_charging
                    && shown.right_percent == -1 && !shown.right_charging && shows_remembered(
                    shown,
                    old(worker).cached_case,
                ) && shown.case_stale
            }
        }),
{
    let (after, done) = old(worker)@.scan_finished(generation, battery, now_ns);
    assert(final(worker)@ == after && action == done);
    assert(final(worker)@.precise == final(worker).precise_battery);
    assert(final(worker)@.case == final(worker).cached_case);
    assert(final(worker)@.failures == final(worker).consecutive_failures);
}

/// When it is time, the values of a session are published again: the earbuds as they are, the
/// case as it is remembered, an old value once it is 90 seconds old and from then on. Without a
/// session a connected device is scanned, unless a scan is running, and nothing else happens.
pub proof fn law_values_are_published_again(
    worker: &mut BatteryWorker,
    current: BatteryStatus,
    now_ns: u64,
    action: BatteryAction,
)
    requires
        call_ensures(
            BatteryWorker::battery_loop,
            (worker, BatteryEvent::RefreshDue, current, now_ns),
            action,
        ),
    ensures
        ({
            let connected = old(worker).selected_connection is Some
                && old(worker).selected_connection->0.connected;
            let shown = action->Publish_0;
            &&& old(worker).precise_battery matches Some(held) ==> {
                &&& action is Publish && final(worker).precise_battery == Some(shown)
                &&& shown.left_percent == held.left_percent && shown.left_charging
                    == held.left_charging
                &&& shown.right_percent == held.right_percent && shown.right_charging
                    == held.right_charging
                &&& shows_remembered(shown, old(worker).cached_case)
                &&& shown.case_stale <==> held.case_stale || is_old(
                    old(worker).cached_case,
                    now_ns,
                )
            }
            &&& old(worker).precise_battery is None ==> {
                &&& action is Scan <==> connected && !old(worker).scan_in_progress
                &&& action is Scan || action is Nothing
                &&& action is Scan ==> action->generation == final(worker).scan_generation
                    && action->generation == counted_on(old(worker).scan_generation, 1)
                        && final(worker).scan_in_progress
                &&& final(worker).precise_battery is None
            }
            &&& final(worker).cached_case == old(worker).cached_case
            &&& final(worker).consecutive_failures == old(worker).consecutive_failures
        }),
{
    let (after, done) = old(worker)@.refresh_due(now_ns);
    assert(final(worker)@ == after && action == done);
    assert(final(worker)@.precise == final(worker).precise_battery);
    assert(final(worker)@.case == final(worker).cached_case);
    assert(final(worker)@.failures == final(worker).consecutive_failures);
}

/// The worker stops exactly at a shutdown, or once nobody can signal one, and its last update
/// removes every battery from the power bridge.
pub proof fn law_the_worker_stops_at_a_shutdown(
    worker: &mut BatteryWorker,
    closed: bool,
    shutdown: bool,
    current: BatteryStatus,
    now_ns: u64,
    action: BatteryAction,
    bridge: &PowerBridge,
    update: Option<Vec<u8>>,
)
    requires
        call_ensures(
            BatteryWorker::battery_loop,
            (worker, BatteryEvent::ShutdownChanged { closed, shutdown }, current, now_ns),
            action,
        ),
        call_ensures(ending_update, (&action, bridge), update),
    ensures
        action is Stop <==> closed || shutdown,
        action is Stop || action is Nothing,
        final(worker)@ == old(worker)@,
        update is Some <==> action is Stop,
        update matches Some(bytes) ==> bytes@ == seq![2u8, 0, 0, 0, 0, 0, 0, 0, 0, 0, 1],
{
    if let Some(bytes) = update {
        assert(bytes@ =~= seq![2u8, 0, 0, 0, 0, 0, 0, 0, 0, 0, 1]);
    }
}

/// A worker begins with the connection that is known and with nothing else.
pub proof fn law_workers_begin_without_values(
    connection: Option<SelectedDeviceConnection>,
    worker: BatteryWorker,
)
    requires
        call_ensures(BatteryWorker::new, (connection,), worker),
    ensures
        worker@.connection == connection_view(connection),
        worker.precise_battery is None && worker.cached_case is None,
        worker.consecutive_failures == 0 && !worker.scan_in_progress && worker.aacp_events_open,
{
    assert(worker@.precise is None && worker@.case is None && worker@.failures == 0);
    assert(!worker@.scanning && worker@.aacp_open);
}

/// A look at the devices reports the selected address, connected exactly where one of the devices
/// is both selected and connected, and only where that differs from the last report.
pub proof fn law_connections_are_reported_where_they_differ(
    devices: &Vec<DeviceInfo>,
    selected: &str,
    reported: &Option<SelectedDeviceConnection>,
    connection: Option<SelectedDeviceConnection>,
)
    requires
        call_ensures(inventory_connection, (devices, selected, reported), connection),
    ensures
        ({
            let connected = exists|i: int|
                0 <= i < devices@.len() && (#[trigger] devices@[i]).selected
                    && devices@[i].connected;
            &&& connection is None <==> reported is Some && reported->0.address@ == selected@
                && reported->0.connected == connected
            &&& connection matches Some(connection) ==> connection.address@ == selected@
                && connection.connected == connected
        }),
{
    let views = crate::ipc::device_views(devices@);
    assert(views.len() == devices@.len());
    assert forall|i: int| 0 <= i < views.len() implies #[trigger] views[i] == devices@[i]@ by {}
    if exists|i: int|
        0 <= i < devices@.len() && (#[trigger] devices@[i]).selected && devices@[i].connected {
        let i = choose|i: int|
            0 <= i < devices@.len() && (#[trigger] devices@[i]).selected && devices@[i].connected;
        assert(views[i].selected && views[i].connected);
    }
    if selected_is_connected(views) {
        let i = choose|i: int|
            0 <= i < views.len() && #[trigger] views[i].selected && views[i].connected;
        assert(devices@[i].selected && devices@[i].connected);
    }
}

/// What is remembered of the case replaces what a status shows of it and nothing else; it is an old
/// value where that is asked for, or from 90 seconds on.
pub proof fn law_remembered_values_replace_the_case_alone(
    battery: &mut BatteryStatus,
    cached: Option<CachedCase>,
    force_stale: bool,
    now_ns: u64,
)
    requires
        call_ensures(apply_cached_case, (battery, cached, force_stale, now_ns), ()),
    ensures
        shows_remembered(*final(battery), cached),
        final(battery).case_stale <==> force_stale || is_old(cached, now_ns),
        final(battery).left_percent == old(battery).left_percent,
        final(battery).left_charging == old(battery).left_charging,
        final(battery).right_percent == old(battery).right_percent,
        final(battery).right_charging == old(battery).right_charging,
{
}

/// The address of a connection is that of its device, and whether it is connected is known exactly
/// where there is a connection.
pub proof fn law_connections_are_read_as_they_are(
    connection: &Option<SelectedDeviceConnection>,
    address: &str,
    connected: Option<bool>,
)
    requires
        call_ensures(selected_address, (connection,), address),
        call_ensures(selected_connected, (connection,), connected),
    ensures
        connection matches Some(known) ==> address@ == known.address@ && connected == Some(
            known.connected,
        ),
        connection is None ==> address@.len() == 0 && connected is None,
{
    if let Some(flag) = connected {
        assert(flag || !flag);
        assert(connected == Some(true) || connected == Some(false));
    }
}

} // verus!
