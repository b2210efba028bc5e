use vstd::prelude::*;
use crate::health::HealthStatusAll;

verus! {

/// The part an instance plays in sharing processor health across the fleet.
#[derive(Clone, Copy, Debug, PartialEq, Eq)]
pub enum Role {
    /// Probes the processors and pushes every new snapshot to the replicas.
    Prober,
    /// Takes its health view from the prober's snapshots.
    Replica,
    /// Neither probes nor listens: keeps the initial health view.
    Standalone,
}

/// The role named by an instance's configuration.
pub open spec fn role_spec(name: Seq<char>) -> Role {
    if name == "master"@ {
        Role::Prober
    } else if name == "slave"@ {
        Role::Replica
    } else {
        Role::Standalone
    }
}

/// Reads the configured role name: `master` probes, `slave` replicates,
/// anything else does neither.
pub fn role_from_name(name: &String) -> (r: Role)
    ensures
        r == role_spec(name@),
{
    let master = "master".to_owned();
    let slave = "slave".to_owned();
    proof {
        reveal_strlit("master");
        reveal_strlit("slave");
    }
    if *name == master {
        Role::Prober
    } else if *name == slave {
        Role::Replica
    } else {
        Role::Standalone
    }
}

/// The health view of a replica after a run of snapshots from the prober,
/// applied in arrival order: each replaces the view whole.
pub open spec fn after_snapshots(local: HealthStatusAll, snapshots: Seq<HealthStatusAll>) -> HealthStatusAll {
    if snapshots.len() == 0 {
        local
    } else {
        snapshots.last()
    }
}

/// Applies a snapshot received from the prober: the local view is replaced
/// whole in one step, with no merge of fields.
pub fn receive_snapshot(local: &mut HealthStatusAll, snapshot: HealthStatusAll)
    ensures
        *final(local) == snapshot,
{
    *local = snapshot;
}

/// Once a snapshot of the prober's state is delivered, the replica holds
/// exactly the prober's state, whatever it held before.
pub proof fn lemma_replica_converges(prober: HealthStatusAll, replica: HealthStatusAll)
    ensures
        after_snapshots(replica, seq![prober]) == prober,
{
}

/// Delivering one more snapshot after a run is the same as replacing the
/// view reached by the run with it.
pub proof fn lemma_snapshot_step(replica: HealthStatusAll, snapshots: Seq<HealthStatusAll>, next: HealthStatusAll)
    ensures
        after_snapshots(replica, snapshots.push(next)) == next,
        after_snapshots(after_snapshots(replica, snapshots), seq![next]) == next,
{
    assert(snapshots.push(next).last() == next);
}

/// Snapshots are applied in arrival order, last one wins: after a run of
/// deliveries `s1 .. sk` the replica holds `sk`.
pub proof fn lemma_last_snapshot_wins(replica: HealthStatusAll, snapshots: Seq<HealthStatusAll>)
    requires
        snapshots.len() > 0,
    ensures
        after_snapshots(replica, snapshots) == snapshots[snapshots.len() - 1],
{
}

} // verus!
