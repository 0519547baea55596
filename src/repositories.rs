//! Stores of configuration entities. Each store is built once from the
//! decoded rows of its backing table (or files), then hands out copies.
//! The database family (`Db*`) and the file family share one load rule;
//! the monitor stores also check every monitor's references before they exist.
use crate::entity_map::{
    all_decoded, first_undecoded, from_rows, lookup_result, parse_error_of, rows_view, EntityMap,
    PayloadRow,
};
use crate::error::{EntityKind, RepositoryError};
use crate::models::{Monitor, MonitorView, Network, NetworkView, Trigger, TriggerView};
use crate::validation::{all_references_resolve, is_missing_reference, references_resolve};
use vstd::prelude::*;

verus! {

/// Read access to a snapshot of networks, keyed by slug.
pub trait NetworkRepositoryTrait {
    /// The networks held, by slug.
    spec fn networks_view(&self) -> Map<Seq<char>, NetworkView>;

    /// A copy of the network with slug `network_id`, if held.
    fn get(&self, network_id: &str) -> (r: Option<Network>)
        ensures
            lookup_result(self.networks_view(), network_id@, r),
    ;

    /// A copy of every network held.
    fn get_all(&self) -> (r: EntityMap<Network>)
        ensures
            r.wf(),
            r@ == self.networks_view(),
    ;
}

/// Read access to a snapshot of triggers, keyed by name.
pub trait TriggerRepositoryTrait {
    /// The triggers held, by name.
    spec fn triggers_view(&self) -> Map<Seq<char>, TriggerView>;

    /// A copy of the trigger named `trigger_id`, if held.
    fn get(&self, trigger_id: &str) -> (r: Option<Trigger>)
        ensures
            lookup_result(self.triggers_view(), trigger_id@, r),
    ;

    /// A copy of every trigger held.
    fn get_all(&self) -> (r: EntityMap<Trigger>)
        ensures
            r.wf(),
            r@ == self.triggers_view(),
    ;
}

/// Read access to a snapshot of validated monitors, keyed by name.
pub trait MonitorRepositoryTrait {
    /// The monitors held, by name.
    spec fn monitors_view(&self) -> Map<Seq<char>, MonitorView>;

    /// A copy of the monitor named `monitor_id`, if held.
    fn get(&self, monitor_id: &str) -> (r: Option<Monitor>)
        ensures
            lookup_result(self.monitors_view(), monitor_id@, r),
    ;

    /// A copy of every monitor held.
    fn get_all(&self) -> (r: EntityMap<Monitor>)
        ensures
            r.wf(),
            r@ == self.monitors_view(),
    ;
}

/// Networks loaded from the `networks` table (`slug`, `data`).
pub struct DbNetworkRepository {
    networks: EntityMap<Network>,
}

impl DbNetworkRepository {
    #[verifier::type_invariant]
    spec fn inv(&self) -> bool {
        self.networks.wf()
    }

    /// Builds the store from the decoded rows; one undecodable row fails the load.
    pub fn from_rows(rows: &Vec<PayloadRow<Network>>) -> (r: Result<Self, RepositoryError>)
        ensures
            r is Ok <==> all_decoded(rows@),
            match r {
                Ok(repo) => all_decoded(rows@) && repo.networks_view() == rows_view(rows@),
                Err(e) => exists|i: int|
                    first_undecoded(rows@, i) && e == parse_error_of(EntityKind::Network, rows@[i]),
            },
    {
        match from_rows(EntityKind::Network, rows) {
            Ok(networks) => Ok(DbNetworkRepository { networks }),
            Err(e) => Err(e),
        }
    }
}

impl NetworkRepositoryTrait for DbNetworkRepository {
    closed spec fn networks_view(&self) -> Map<Seq<char>, NetworkView> {
        self.networks@
    }

    fn get(&self, network_id: &str) -> (r: Option<Network>) {
        self.networks.get(network_id)
    }

    fn get_all(&self) -> (r: EntityMap<Network>) {
        proof {
            use_type_invariant(self);
        }
        self.networks.duplicate()
    }
}

/// Triggers loaded from the `triggers` table (`name`, `data`).
pub struct DbTriggerRepository {
    triggers: EntityMap<Trigger>,
}

impl DbTriggerRepository {
    #[verifier::type_invariant]
    spec fn inv(&self) -> bool {
        self.triggers.wf()
    }

    /// Builds the store from the decoded rows; one undecodable row fails the load.
    pub fn from_rows(rows: &Vec<PayloadRow<Trigger>>) -> (r: Result<Self, RepositoryError>)
        ensures
            r is Ok <==> all_decoded(rows@),
            match r {
                Ok(repo) => all_decoded(rows@) && repo.triggers_view() == rows_view(rows@),
                Err(e) => exists|i: int|
                    first_undecoded(rows@, i) && e == parse_error_of(EntityKind::Trigger, rows@[i]),
            },
    {
        match from_rows(EntityKind::Trigger, rows) {
            Ok(triggers) => Ok(DbTriggerRepository { triggers }),
            Err(e) => Err(e),
        }
    }
}

impl TriggerRepositoryTrait for DbTriggerRepository {
    closed spec fn triggers_view(&self) -> Map<Seq<char>, TriggerView> {
        self.triggers@
    }

    fn get(&self, trigger_id: &str) -> (r: Option<Trigger>) {
        self.triggers.get(trigger_id)
    }

    fn get_all(&self) -> (r: EntityMap<Trigger>) {
        proof {
            use_type_invariant(self);
        }
        self.triggers.duplicate()
    }
}

/// Validated monitors loaded from the `monitors` table (`name`, `data`).
pub struct DbMonitorRepository {
    monitors: EntityMap<Monitor>,
}

impl DbMonitorRepository {
    #[verifier::type_invariant]
    spec fn inv(&self) -> bool {
        self.monitors.wf()
    }

    /// Builds the store from the decoded rows of monitors, then checks that
    /// every monitor's networks and triggers are among those given. Any
    /// undecodable row or missing reference fails the whole load.
    pub fn from_rows(
        rows: &Vec<PayloadRow<Monitor>>,
        networks: &EntityMap<Network>,
        triggers: &EntityMap<Trigger>,
    ) -> (r: Result<Self, RepositoryError>)
        ensures
            r is Ok <==> all_decoded(rows@) && all_references_resolve(
                rows_view(rows@),
                networks@.dom(),
                triggers@.dom(),
            ),
            match r {
                Ok(repo) => all_decoded(rows@) && all_references_resolve(
                    rows_view(rows@),
                    networks@.dom(),
                    triggers@.dom(),
                ) && repo.monitors_view() == rows_view(rows@),
                Err(e) => (exists|i: int|
                    first_undecoded(rows@, i) && e == parse_error_of(EntityKind::Monitor, rows@[i]))
                    || (all_decoded(rows@) && !all_references_resolve(
                    rows_view(rows@),
                    networks@.dom(),
                    triggers@.dom(),
                ) && is_missing_reference(rows_view(rows@), networks@.dom(), triggers@.dom(), e)),
            },
    {
        let monitors = match from_rows(EntityKind::Monitor, rows) {
            Ok(monitors) => monitors,
            Err(e) => return Err(e),
        };
        DbMonitorRepository::from_decoded(monitors, networks, triggers)
    }

    /// Builds the store from monitors that were already decoded, once every
    /// monitor's networks and triggers are found among those given.
    pub fn from_decoded(
        monitors: EntityMap<Monitor>,
        networks: &EntityMap<Network>,
        triggers: &EntityMap<Trigger>,
    ) -> (r: Result<Self, RepositoryError>)
        requires
            monitors.wf(),
        ensures
            r is Ok <==> all_references_resolve(monitors@, networks@.dom(), triggers@.dom()),
            match r {
                Ok(repo) => repo.monitors_view() == monitors@,
                Err(e) => is_missing_reference(monitors@, networks@.dom(), triggers@.dom(), e),
            },
    {
        match MonitorRepository::validate_monitor_references(&monitors, triggers, networks) {
            Ok(()) => Ok(DbMonitorRepository { monitors }),
            Err(e) => Err(e),
        }
    }

    /// Checks one monitor, read from a standalone source, against the given
    /// networks and triggers, and returns it when all its references resolve.
    pub fn load_from_path(
        monitor: Monitor,
        networks: &EntityMap<Network>,
        triggers: &EntityMap<Trigger>,
    ) -> (r: Result<Monitor, RepositoryError>)
        ensures
            match r {
                Ok(m) => m@ == monitor@ && references_resolve(
                    monitor@,
                    networks@.dom(),
                    triggers@.dom(),
                ),
                Err(e) => !references_resolve(monitor@, networks@.dom(), triggers@.dom())
                    && is_missing_reference(
                    map![monitor.name@ => monitor@],
                    networks@.dom(),
                    triggers@.dom(),
                    e,
                ),
            },
    {
        let mut single = EntityMap::new();
        let name = monitor.name.clone();
        let copy = monitor.clone();
        single.insert(name, copy);
        assert(single@ =~= map![monitor.name@ => monitor@]);
        match MonitorRepository::validate_monitor_references(&single, triggers, networks) {
            Ok(()) => {
                assert(single@.contains_key(monitor.name@));
                Ok(monitor)
            },
            Err(e) => {
                assert forall|k: Seq<char>| single@.contains_key(k) implies k == monitor.name@ by {}
                Err(e)
            },
        }
    }
}

impl MonitorRepositoryTrait for DbMonitorRepository {
    closed spec fn monitors_view(&self) -> Map<Seq<char>, MonitorView> {
        self.monitors@
    }

    fn get(&self, monitor_id: &str) -> (r: Option<Monitor>) {
        self.monitors.get(monitor_id)
    }

    fn get_all(&self) -> (r: EntityMap<Monitor>) {
        proof {
            use_type_invariant(self);
        }
        self.monitors.duplicate()
    }
}

/// Networks loaded from configuration files, keyed by slug.
pub struct NetworkRepository {
    networks: EntityMap<Network>,
}

impl NetworkRepository {
    #[verifier::type_invariant]
    spec fn inv(&self) -> bool {
        self.networks.wf()
    }

    /// Builds the store from the decoded rows; one undecodable row fails the load.
    pub fn from_rows(rows: &Vec<PayloadRow<Network>>) -> (r: Result<Self, RepositoryError>)
        ensures
            r is Ok <==> all_decoded(rows@),
            match r {
                Ok(repo) => all_decoded(rows@) && repo.networks_view() == rows_view(rows@),
                Err(e) => exists|i: int|
                    first_undecoded(rows@, i) && e == parse_error_of(EntityKind::Network, rows@[i]),
            },
    {
        match from_rows(EntityKind::Network, rows) {
            Ok(networks) => Ok(NetworkRepository { networks }),
            Err(e) => Err(e),
        }
    }
}

impl NetworkRepositoryTrait for NetworkRepository {
    closed spec fn networks_view(&self) -> Map<Seq<char>, NetworkView> {
        self.networks@
    }

    fn get(&self, network_id: &str) -> (r: Option<Network>) {
        self.networks.get(network_id)
    }

    fn get_all(&self) -> (r: EntityMap<Network>) {
        proof {
            use_type_invariant(self);
        }
        self.networks.duplicate()
    }
}

/// Triggers loaded from configuration files, keyed by name.
pub struct TriggerRepository {
    triggers: EntityMap<Trigger>,
}

impl TriggerRepository {
    #[verifier::type_invariant]
    spec fn inv(&self) -> bool {
        self.triggers.wf()
    }

    /// Builds the store from the decoded rows; one undecodable row fails the load.
    pub fn from_rows(rows: &Vec<PayloadRow<Trigger>>) -> (r: Result<Self, RepositoryError>)
        ensures
            r is Ok <==> all_decoded(rows@),
            match r {
                Ok(repo) => all_decoded(rows@) && repo.triggers_view() == rows_view(rows@),
                Err(e) => exists|i: int|
                    first_undecoded(rows@, i) && e == parse_error_of(EntityKind::Trigger, rows@[i]),
            },
    {
        match from_rows(EntityKind::Trigger, rows) {
            Ok(triggers) => Ok(TriggerRepository { triggers }),
            Err(e) => Err(e),
        }
    }
}

impl TriggerRepositoryTrait for TriggerRepository {
    closed spec fn triggers_view(&self) -> Map<Seq<char>, TriggerView> {
        self.triggers@
    }

    fn get(&self, trigger_id: &str) -> (r: Option<Trigger>) {
        self.triggers.get(trigger_id)
    }

    fn get_all(&self) -> (r: EntityMap<Trigger>) {
        proof {
            use_type_invariant(self);
        }
        self.triggers.duplicate()
    }
}

/// Validated monitors loaded from configuration files, keyed by name.
pub struct MonitorRepository {
    monitors: EntityMap<Monitor>,
}

impl MonitorRepository {
    #[verifier::type_invariant]
    spec fn inv(&self) -> bool {
        self.monitors.wf()
    }

    /// Builds the store from the decoded rows of monitors, then checks that
    /// every monitor's networks and triggers are among those given. Any
    /// undecodable row or missing reference fails the whole load.
    pub fn from_rows(
        rows: &Vec<PayloadRow<Monitor>>,
        networks: &EntityMap<Network>,
        triggers: &EntityMap<Trigger>,
    ) -> (r: Result<Self, RepositoryError>)
        ensures
            r is Ok <==> all_decoded(rows@) && all_references_resolve(
                rows_view(rows@),
                networks@.dom(),
                triggers@.dom(),
            ),
            match r {
                Ok(repo) => all_decoded(rows@) && all_references_resolve(
                    rows_view(rows@),
                    networks@.dom(),
                    triggers@.dom(),
                ) && repo.monitors_view() == rows_view(rows@),
                Err(e) => (exists|i: int|
                    first_undecoded(rows@, i) && e == parse_error_of(EntityKind::Monitor, rows@[i]))
                    || (all_decoded(rows@) && !all_references_resolve(
                    rows_view(rows@),
                    networks@.dom(),
                    triggers@.dom(),
                ) && is_missing_reference(rows_view(rows@), networks@.dom(), triggers@.dom(), e)),
            },
    {
        let monitors = match from_rows(EntityKind::Monitor, rows) {
            Ok(monitors) => monitors,
            Err(e) => return Err(e),
        };
        match MonitorRepository::validate_monitor_references(&monitors, triggers, networks) {
            Ok(()) => Ok(MonitorRepository { monitors }),
            Err(e) => Err(e),
        }
    }
}

impl MonitorRepositoryTrait for MonitorRepository {
    closed spec fn monitors_view(&self) -> Map<Seq<char>, MonitorView> {
        self.monitors@
    }

    fn get(&self, monitor_id: &str) -> (r: Option<Monitor>) {
        self.monitors.get(monitor_id)
    }

    fn get_all(&self) -> (r: EntityMap<Monitor>) {
        proof {
            use_type_invariant(self);
        }
        self.monitors.duplicate()
    }
}

/// A handle on a network snapshot that other stores can reuse instead of loading their own.
pub struct NetworkService {
    networks: EntityMap<Network>,
}

impl NetworkService {
    #[verifier::type_invariant]
    spec fn inv(&self) -> bool {
        self.networks.wf()
    }

    /// A handle over the current contents of `repository`.
    pub fn new_with_repository<R: NetworkRepositoryTrait>(repository: &R) -> (r: Self)
        ensures
            r.networks_view() == repository.networks_view(),
    {
        NetworkService { networks: repository.get_all() }
    }
}

impl NetworkRepositoryTrait for NetworkService {
    closed spec fn networks_view(&self) -> Map<Seq<char>, NetworkView> {
        self.networks@
    }

    fn get(&self, network_id: &str) -> (r: Option<Network>) {
        self.networks.get(network_id)
    }

    fn get_all(&self) -> (r: EntityMap<Network>) {
        proof {
            use_type_invariant(self);
        }
        self.networks.duplicate()
    }
}

/// A handle on a trigger snapshot that other stores can reuse instead of loading their own.
pub struct TriggerService {
    triggers: EntityMap<Trigger>,
}

impl TriggerService {
    #[verifier::type_invariant]
    spec fn inv(&self) -> bool {
        self.triggers.wf()
    }

    /// A handle over the current contents of `repository`.
    pub fn new_with_repository<R: TriggerRepositoryTrait>(repository: &R) -> (r: Self)
        ensures
            r.triggers_view() == repository.triggers_view(),
    {
        TriggerService { triggers: repository.get_all() }
    }
}

impl TriggerRepositoryTrait for TriggerService {
    closed spec fn triggers_view(&self) -> Map<Seq<char>, TriggerView> {
        self.triggers@
    }

    fn get(&self, trigger_id: &str) -> (r: Option<Trigger>) {
        self.triggers.get(trigger_id)
    }

    fn get_all(&self) -> (r: EntityMap<Trigger>) {
        proof {
            use_type_invariant(self);
        }
        self.triggers.duplicate()
    }
}

/// A handle on a monitor snapshot.
pub struct MonitorService {
    monitors: EntityMap<Monitor>,
}

impl MonitorService {
    #[verifier::type_invariant]
    spec fn inv(&self) -> bool {
        self.monitors.wf()
    }

    /// A handle over the current contents of `repository`.
    pub fn new_with_repository<R: MonitorRepositoryTrait>(repository: &R) -> (r: Self)
        ensures
            r.monitors_view() == repository.monitors_view(),
    {
        MonitorService { monitors: repository.get_all() }
    }
}

impl MonitorRepositoryTrait for MonitorService {
    closed spec fn monitors_view(&self) -> Map<Seq<char>, MonitorView> {
        self.monitors@
    }

    fn get(&self, monitor_id: &str) -> (r: Option<Monitor>) {
        self.monitors.get(monitor_id)
    }

    fn get_all(&self) -> (r: EntityMap<Monitor>) {
        proof {
            use_type_invariant(self);
        }
        self.monitors.duplicate()
    }
}

} // verus!
