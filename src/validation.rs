//! Referential validation of monitors against the loaded networks and triggers.
use crate::entity_map::EntityMap;
use crate::error::{EntityKind, RepositoryError};
use crate::models::{Monitor, MonitorView, Network, Trigger};
use crate::repositories::MonitorRepository;
use vstd::prelude::*;

verus! {

/// Every network and every trigger that the monitor names is among the loaded keys.
pub open spec fn references_resolve(
    m: MonitorView,
    networks: Set<Seq<char>>,
    triggers: Set<Seq<char>>,
) -> bool {
    &&& forall|i: int| 0 <= i < m.networks.len() ==> networks.contains(m.networks[i]@)
    &&& forall|i: int| 0 <= i < m.triggers.len() ==> triggers.contains(m.triggers[i]@)
}

/// Every monitor's references resolve.
pub open spec fn all_references_resolve(
    monitors: Map<Seq<char>, MonitorView>,
    networks: Set<Seq<char>>,
    triggers: Set<Seq<char>>,
) -> bool {
    forall|k: Seq<char>| #[trigger]
        monitors.contains_key(k) ==> references_resolve(monitors[k], networks, triggers)
}

/// `e` names a monitor of the collection and one of its references that is not loaded.
pub open spec fn is_missing_reference(
    monitors: Map<Seq<char>, MonitorView>,
    networks: Set<Seq<char>>,
    triggers: Set<Seq<char>>,
    e: RepositoryError,
) -> bool {
    match e {
        RepositoryError::ValidationError { monitor, reference_kind, missing } => {
            &&& monitors.contains_key(monitor@)
            &&& match reference_kind {
                EntityKind::Network => monitors[monitor@].networks.contains(missing)
                    && !networks.contains(missing@),
                EntityKind::Trigger => monitors[monitor@].triggers.contains(missing)
                    && !triggers.contains(missing@),
                EntityKind::Monitor => false,
            }
        },
        _ => false,
    }
}

/// When some monitor names trigger `t`, `t` is not loaded, and every other
/// reference resolves, validation cannot succeed, and whatever failure it
/// reports names the missing trigger `t`.
pub proof fn lemma_missing_trigger_is_named(
    monitors: Map<Seq<char>, MonitorView>,
    networks: Set<Seq<char>>,
    triggers: Set<Seq<char>>,
    t: Seq<char>,
)
    requires
        !triggers.contains(t),
        exists|k: Seq<char>, i: int|
            monitors.contains_key(k) && 0 <= i < monitors[k].triggers.len()
                && #[trigger] monitors[k].triggers[i]@ == t,
        forall|k: Seq<char>, i: int|
            monitors.contains_key(k) && 0 <= i < monitors[k].networks.len() ==> networks.contains(
                #[trigger] monitors[k].networks[i]@,
            ),
        forall|k: Seq<char>, i: int|
            monitors.contains_key(k) && 0 <= i < monitors[k].triggers.len() ==> triggers.contains(
                #[trigger] monitors[k].triggers[i]@,
            ) || monitors[k].triggers[i]@ == t,
    ensures
        !all_references_resolve(monitors, networks, triggers),
        forall|e: RepositoryError| #[trigger]
            is_missing_reference(monitors, networks, triggers, e) ==> {
                &&& e is ValidationError
                &&& e->ValidationError_reference_kind == EntityKind::Trigger
                &&& e->ValidationError_missing@ == t
            },
{
    let (k, i) = choose|k: Seq<char>, i: int|
        monitors.contains_key(k) && 0 <= i < monitors[k].triggers.len()
            && #[trigger] monitors[k].triggers[i]@ == t;
    assert(!references_resolve(monitors[k], networks, triggers));
    assert forall|e: RepositoryError| #[trigger]
        is_missing_reference(monitors, networks, triggers, e) implies {
        &&& e is ValidationError
        &&& e->ValidationError_reference_kind == EntityKind::Trigger
        &&& e->ValidationError_missing@ == t
    } by {
        match e {
            RepositoryError::ValidationError { monitor, reference_kind, missing } => {
                match reference_kind {
                    EntityKind::Network => {
                        let j = choose|j: int|
                            0 <= j < monitors[monitor@].networks.len()
                                && monitors[monitor@].networks[j] == missing;
                        assert(networks.contains(monitors[monitor@].networks[j]@));
                    },
                    EntityKind::Trigger => {
                        let j = choose|j: int|
                            0 <= j < monitors[monitor@].triggers.len()
                                && monitors[monitor@].triggers[j] == missing;
                        assert(triggers.contains(monitors[monitor@].triggers[j]@)
                            || monitors[monitor@].triggers[j]@ == t);
                    },
                    EntityKind::Monitor => {},
                }
            },
            _ => {},
        }
    }
}

impl MonitorRepository {
    /// Checks that every monitor's networks and triggers were loaded. The first
    /// reference found missing fails the check.
    pub fn validate_monitor_references(
        monitors: &EntityMap<Monitor>,
        triggers: &EntityMap<Trigger>,
        networks: &EntityMap<Network>,
    ) -> (r: Result<(), RepositoryError>)
        requires
            monitors.wf(),
        ensures
            match r {
                Ok(_) => all_references_resolve(monitors@, networks@.dom(), triggers@.dom()),
                Err(e) => !all_references_resolve(monitors@, networks@.dom(), triggers@.dom())
                    && is_missing_reference(monitors@, networks@.dom(), triggers@.dom(), e),
            },
    {
        let keys = monitors.keys();
        let mut i: usize = 0;
        while i < keys.len()
            invariant
                i <= keys@.len(),
                forall|k: Seq<char>|
                    monitors@.contains_key(k) <==> exists|j: int| 0 <= j < keys@.len() && keys@[j]@ == k,
                forall|j: int|
                    0 <= j < i ==> references_resolve(
                        monitors@[#[trigger] keys@[j]@],
                        networks@.dom(),
                        triggers@.dom(),
                    ),
            decreases keys@.len() - i,
        {
            let key = &keys[i];
            assert(monitors@.contains_key(key@));
            match monitors.get_ref(key.as_str()) {
                Some(monitor) => {
                    let mut n: usize = 0;
                    while n < monitor.networks.len()
                        invariant
                            n <= monitor.networks@.len(),
                            monitors@.contains_key(key@),
                            monitor@ == monitors@[key@],
                            forall|a: int| 0 <= a < n ==> networks@.contains_key(#[trigger] monitor.networks@[a]@),
                        decreases monitor.networks@.len() - n,
                    {
                        let slug = &monitor.networks[n];
                        if !networks.contains_key(slug.as_str()) {
                            let missing = slug.clone();
                            assert(monitor.networks@[n as int] == missing);
                            assert(!networks@.dom().contains(monitors@[key@].networks[n as int]@));
                            assert(!references_resolve(monitors@[key@], networks@.dom(), triggers@.dom()));
                            assert(monitors@.contains_key(key@));
                            return Err(
                                RepositoryError::ValidationError {
                                    monitor: key.clone(),
                                    reference_kind: EntityKind::Network,
                                    missing,
                                },
                            );
                        }
                        n = n + 1;
                    }
                    let mut t: usize = 0;
                    while t < monitor.triggers.len()
                        invariant
                            t <= monitor.triggers@.len(),
                            monitors@.contains_key(key@),
                            monitor@ == monitors@[key@],
                            forall|a: int| 0 <= a < t ==> triggers@.contains_key(#[trigger] monitor.triggers@[a]@),
                        decreases monitor.triggers@.len() - t,
                    {
                        let name = &monitor.triggers[t];
                        if !triggers.contains_key(name.as_str()) {
                            let missing = name.clone();
                            assert(monitor.triggers@[t as int] == missing);
                            assert(!triggers@.dom().contains(monitors@[key@].triggers[t as int]@));
                            assert(!references_resolve(monitors@[key@], networks@.dom(), triggers@.dom()));
                            assert(monitors@.contains_key(key@));
                            return Err(
                                RepositoryError::ValidationError {
                                    monitor: key.clone(),
                                    reference_kind: EntityKind::Trigger,
                                    missing,
                                },
                            );
                        }
                        t = t + 1;
                    }
                    assert(references_resolve(monitors@[keys@[i as int]@], networks@.dom(), triggers@.dom()));
                },
                None => {},
            }
            i = i + 1;
        }
        proof {
            assert forall|k: Seq<char>| #[trigger]
                monitors@.contains_key(k) implies references_resolve(
                    monitors@[k],
                    networks@.dom(),
                    triggers@.dom(),
                ) by {
                let j = choose|j: int| 0 <= j < keys@.len() && keys@[j]@ == k;
                assert(references_resolve(monitors@[keys@[j]@], networks@.dom(), triggers@.dom()));
            }
        }
        Ok(())
    }
}

} // verus!
