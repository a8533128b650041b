use vstd::prelude::*;
use crate::table::Table;

verus! {

/// Whether traffic between two partitions is blocked.
#[derive(Clone, Copy, Debug, PartialEq, Eq, Structural)]
pub struct PartitionConnectionInfo {
    pub is_blocked: bool,
}

/// One connection setting: between `partition_a` and `partition_b`, `info`.
pub struct PartitionConnection {
    pub partition_a: String,
    pub partition_b: String,
    pub info: PartitionConnectionInfo,
}

/// The settings of `log`, where a later setting for a pair replaces an earlier one.
pub open spec fn connections_of(log: Seq<PartitionConnection>) -> Map<(Seq<char>, Seq<char>), PartitionConnectionInfo>
    decreases log.len(),
{
    if log.len() == 0 {
        Map::empty()
    } else {
        let c = log.last();
        connections_of(log.drop_last()).insert((c.partition_a@, c.partition_b@), c.info)
    }
}

/// A whole network topology: which services each partition holds, how partitions are
/// connected, and the connection between partitions that no setting names.
pub struct Repartitioner {
    partition_services: Table<Vec<String>>,
    partition_connections: Vec<PartitionConnection>,
    default_connection: PartitionConnectionInfo,
}

/// A topology as values: partition id to its services, partition pair to its connection,
/// and the default connection.
pub struct TopologyView {
    pub services: Map<Seq<char>, Seq<String>>,
    pub connections: Map<(Seq<char>, Seq<char>), PartitionConnectionInfo>,
    pub default_connection: PartitionConnectionInfo,
}

impl Repartitioner {
    pub closed spec fn spec_partitions(&self) -> Table<Vec<String>> {
        self.partition_services
    }

    pub closed spec fn spec_connection_log(&self) -> Seq<PartitionConnection> {
        self.partition_connections@
    }

    pub closed spec fn spec_default_connection(&self) -> PartitionConnectionInfo {
        self.default_connection
    }

    pub open spec fn wf(&self) -> bool {
        self.spec_partitions().wf()
    }

    pub open spec fn topology(&self) -> TopologyView {
        TopologyView {
            services: self.spec_partitions()@.map_values(|v: Vec<String>| v@),
            connections: connections_of(self.spec_connection_log()),
            default_connection: self.spec_default_connection(),
        }
    }

    /// The partitions with their services, in the order in which they were first named.
    pub fn get_partition_services(&self) -> (r: &Table<Vec<String>>)
        ensures
            *r == self.spec_partitions(),
    {
        &self.partition_services
    }

    /// The connection settings in the order given; a later one for a pair replaces an earlier.
    pub fn get_partition_connections(&self) -> (r: &Vec<PartitionConnection>)
        ensures
            r@ == self.spec_connection_log(),
    {
        &self.partition_connections
    }

    pub fn get_default_connection(&self) -> (r: PartitionConnectionInfo)
        ensures
            r == self.spec_default_connection(),
    {
        self.default_connection
    }
}

/// One step of building a topology.
pub enum RepartitionOp {
    /// Puts exactly these services in the partition, replacing what an earlier step put there.
    AddPartition { partition_id: String, service_ids: Vec<String> },
    /// Sets the connection between two partitions.
    AddConnection { partition_a: String, partition_b: String, is_blocked: bool },
}

pub open spec fn apply_op(t: TopologyView, op: RepartitionOp) -> TopologyView {
    match op {
        RepartitionOp::AddPartition { partition_id, service_ids } => TopologyView {
            services: t.services.insert(partition_id@, service_ids@),
            ..t
        },
        RepartitionOp::AddConnection { partition_a, partition_b, is_blocked } => TopologyView {
            connections: t.connections.insert(
                (partition_a@, partition_b@),
                PartitionConnectionInfo { is_blocked },
            ),
            ..t
        },
    }
}

/// The topology that the steps `ops`, taken in order, make from `t`.
pub open spec fn apply_ops(t: TopologyView, ops: Seq<RepartitionOp>) -> TopologyView
    decreases ops.len(),
{
    if ops.len() == 0 {
        t
    } else {
        apply_op(apply_ops(t, ops.drop_last()), ops.last())
    }
}

/// The topology with no partition and no connection setting.
pub open spec fn empty_topology(default_blocked: bool) -> TopologyView {
    TopologyView {
        services: Map::empty(),
        connections: Map::empty(),
        default_connection: PartitionConnectionInfo { is_blocked: default_blocked },
    }
}

/// Collects the steps of a topology; none of its methods fails, so calls chain.
pub struct RepartitionerBuilder {
    is_default_partition_connection_blocked: bool,
    mutators: Vec<RepartitionOp>,
}

impl RepartitionerBuilder {
    pub closed spec fn spec_default_blocked(&self) -> bool {
        self.is_default_partition_connection_blocked
    }

    pub closed spec fn spec_ops(&self) -> Seq<RepartitionOp> {
        self.mutators@
    }

    pub fn new(is_default_partition_connection_blocked: bool) -> (r: RepartitionerBuilder)
        ensures
            r.spec_default_blocked() == is_default_partition_connection_blocked,
            r.spec_ops().len() == 0,
    {
        RepartitionerBuilder { is_default_partition_connection_blocked, mutators: Vec::new() }
    }

    pub fn with_partition(&mut self, partition_id: &str, service_ids: Vec<String>) -> (r: &mut RepartitionerBuilder)
        ensures
            r.spec_default_blocked() == old(self).spec_default_blocked(),
            r.spec_ops().len() == old(self).spec_ops().len() + 1,
            r.spec_ops().drop_last() == old(self).spec_ops(),
            r.spec_ops().last() matches RepartitionOp::AddPartition { partition_id: p, service_ids: s }
                && p@ == partition_id@ && s@ == service_ids@,
            *final(self) == *final(r),
    {
        let op = RepartitionOp::AddPartition { partition_id: partition_id.to_owned(), service_ids };
        self.mutators.push(op);
        assert(self.mutators@.drop_last() =~= old(self).mutators@);
        self
    }

    pub fn with_partition_connection(&mut self, partition_a: &str, partition_b: &str, is_blocked: bool) -> (r: &mut RepartitionerBuilder)
        ensures
            r.spec_default_blocked() == old(self).spec_default_blocked(),
            r.spec_ops().len() == old(self).spec_ops().len() + 1,
            r.spec_ops().drop_last() == old(self).spec_ops(),
            r.spec_ops().last() matches RepartitionOp::AddConnection { partition_a: a, partition_b: b, is_blocked: x }
                && a@ == partition_a@ && b@ == partition_b@ && x == is_blocked,
            *final(self) == *final(r),
    {
        let op = RepartitionOp::AddConnection {
            partition_a: partition_a.to_owned(),
            partition_b: partition_b.to_owned(),
            is_blocked,
        };
        self.mutators.push(op);
        assert(self.mutators@.drop_last() =~= old(self).mutators@);
        self
    }

    /// Applies the steps in order to the empty topology.
    pub fn build(&self) -> (r: Repartitioner)
        ensures
            r.wf(),
            r.topology() == apply_ops(empty_topology(self.spec_default_blocked()), self.spec_ops()),
    {
        let mut services: Table<Vec<String>> = Table::new();
        let mut connections: Vec<PartitionConnection> = Vec::new();
        let default_connection = PartitionConnectionInfo { is_blocked: self.is_default_partition_connection_blocked };
        let ghost start = empty_topology(self.is_default_partition_connection_blocked);
        assert(services@.map_values(|v: Vec<String>| v@) =~= start.services);
        assert(connections_of(connections@) =~= start.connections);
        let mut i: usize = 0;
        while i < self.mutators.len()
            invariant
                i <= self.mutators@.len(),
                services.wf(),
                ({
                    let t = apply_ops(start, self.mutators@.take(i as int));
                    &&& services@.map_values(|v: Vec<String>| v@) == t.services
                    &&& connections_of(connections@) == t.connections
                    &&& t.default_connection == default_connection
                }),
            decreases self.mutators@.len() - i,
        {
            let ghost before = apply_ops(start, self.mutators@.take(i as int));
            assert(self.mutators@.take(i + 1).drop_last() =~= self.mutators@.take(i as int));
            match &self.mutators[i] {
                RepartitionOp::AddPartition { partition_id, service_ids } => {
                    let ids = service_ids.clone();
                    assert(ids@ =~= service_ids@);
                    services.insert(partition_id.clone(), ids);
                    assert(services@.map_values(|v: Vec<String>| v@) =~= before.services.insert(partition_id@, service_ids@));
                },
                RepartitionOp::AddConnection { partition_a, partition_b, is_blocked } => {
                    let c = PartitionConnection {
                        partition_a: partition_a.clone(),
                        partition_b: partition_b.clone(),
                        info: PartitionConnectionInfo { is_blocked: *is_blocked },
                    };
                    let ghost prev = connections@;
                    connections.push(c);
                    assert(connections@.drop_last() =~= prev);
                },
            }
            i = i + 1;
        }
        assert(self.mutators@.take(i as int) =~= self.mutators@);
        Repartitioner { partition_services: services, partition_connections: connections, default_connection }
    }
}

} // verus!
