//! The capability descriptor tree: endpoints, each with a device type and
//! an ordered list of cluster descriptors. Built once, then only read.
use vstd::prelude::*;

verus! {

/// The on/off cluster.
pub const CLUSTER_ON_OFF: u32 = 0x0006;
/// The read-only self-description cluster.
pub const CLUSTER_DESCRIPTOR: u32 = 0x001D;

/// Attributes of the on/off cluster.
pub const ATTR_ON_OFF: u32 = 0x0000;
pub const ATTR_GLOBAL_SCENE_CONTROL: u32 = 0x4000;
pub const ATTR_ON_TIME: u32 = 0x4001;
pub const ATTR_OFF_WAIT_TIME: u32 = 0x4002;
pub const ATTR_START_UP_ON_OFF: u32 = 0x4003;

/// Commands of the on/off cluster.
pub const CMD_OFF: u32 = 0x00;
pub const CMD_ON: u32 = 0x01;
pub const CMD_TOGGLE: u32 = 0x02;
pub const CMD_OFF_WITH_EFFECT: u32 = 0x40;
pub const CMD_ON_WITH_RECALL_GLOBAL_SCENE: u32 = 0x41;
pub const CMD_ON_WITH_TIMED_OFF: u32 = 0x42;

/// Attributes of the descriptor cluster.
pub const ATTR_DEVICE_TYPE_LIST: u32 = 0x0000;
pub const ATTR_SERVER_LIST: u32 = 0x0001;
pub const ATTR_CLIENT_LIST: u32 = 0x0002;
pub const ATTR_PARTS_LIST: u32 = 0x0003;

/// The revision the on/off cluster is declared with.
pub const ON_OFF_REVISION: u16 = 6;
/// The revision of the descriptor cluster.
pub const DESCRIPTOR_REVISION: u16 = 2;

/// The on/off light device type.
pub const DEVICE_TYPE_ON_OFF_LIGHT: u32 = 0x0100;
/// The endpoint that carries the load.
pub const LIGHT_ENDPOINT_ID: u16 = 1;

/// One cluster as declared on an endpoint.
#[derive(Clone, Debug)]
pub struct ClusterDesc {
    pub id: u32,
    pub revision: u16,
    pub attrs: Vec<u32>,
    pub cmds: Vec<u32>,
}

/// One endpoint: its id, device type and clusters, in order.
#[derive(Clone, Debug)]
pub struct EndpointDesc {
    pub id: u16,
    pub device_type: u32,
    pub clusters: Vec<ClusterDesc>,
}

/// The node: all its endpoints.
#[derive(Clone, Debug)]
pub struct Node {
    pub endpoints: Vec<EndpointDesc>,
}

/// Whether `v` holds `x`.
pub fn contains_id(v: &Vec<u32>, x: u32) -> (r: bool)
    ensures
        r == v@.contains(x),
{
    let mut i: usize = 0;
    while i < v.len()
        invariant
            i <= v@.len(),
            forall|k: int| 0 <= k < i ==> v@[k] != x,
        decreases v@.len() - i,
    {
        if v[i] == x {
            return true;
        }
        i = i + 1;
    }
    false
}

/// The ids of `full` that `selected` holds, in the order of `full`.
pub fn keep_selected(full: &Vec<u32>, selected: &Vec<u32>) -> (r: Vec<u32>)
    ensures
        r@ == full@.filter(|x: u32| selected@.contains(x)),
{
    let mut r: Vec<u32> = Vec::new();
    let mut i: usize = 0;
    while i < full.len()
        invariant
            i <= full@.len(),
            r@ == full@.take(i as int).filter(|x: u32| selected@.contains(x)),
        decreases full@.len() - i,
    {
        let ghost pred = |x: u32| selected@.contains(x);
        assert(full@.take(i + 1).drop_last() == full@.take(i as int));
        assert(full@.take(i + 1).last() == full@[i as int]);
        reveal_with_fuel(Seq::filter, 1);
        assert(full@.take(i + 1).filter(pred) == if pred(full@[i as int]) {
            full@.take(i as int).filter(pred).push(full@[i as int])
        } else {
            full@.take(i as int).filter(pred)
        });
        if contains_id(selected, full[i]) {
            r.push(full[i]);
        }
        i = i + 1;
    }
    assert(full@.take(full@.len() as int) == full@);
    r
}

impl ClusterDesc {
    /// This cluster narrowed to the selected attributes and commands, with
    /// the given revision.
    pub fn narrow(&self, revision: u16, attrs: &Vec<u32>, cmds: &Vec<u32>) -> (r: ClusterDesc)
        ensures
            r.id == self.id,
            r.revision == revision,
            r.attrs@ == self.attrs@.filter(|x: u32| attrs@.contains(x)),
            r.cmds@ == self.cmds@.filter(|x: u32| cmds@.contains(x)),
    {
        ClusterDesc {
            id: self.id,
            revision,
            attrs: keep_selected(&self.attrs, attrs),
            cmds: keep_selected(&self.cmds, cmds),
        }
    }
}

/// The on/off cluster with every attribute and command it defines.
pub fn full_on_off_cluster() -> (r: ClusterDesc)
    ensures
        r.id == CLUSTER_ON_OFF,
        r.attrs@ == seq![
            ATTR_ON_OFF,
            ATTR_GLOBAL_SCENE_CONTROL,
            ATTR_ON_TIME,
            ATTR_OFF_WAIT_TIME,
            ATTR_START_UP_ON_OFF,
        ],
        r.cmds@ == seq![
            CMD_OFF,
            CMD_ON,
            CMD_TOGGLE,
            CMD_OFF_WITH_EFFECT,
            CMD_ON_WITH_RECALL_GLOBAL_SCENE,
            CMD_ON_WITH_TIMED_OFF,
        ],
{
    ClusterDesc {
        id: CLUSTER_ON_OFF,
        revision: ON_OFF_REVISION,
        attrs: vec![
            ATTR_ON_OFF,
            ATTR_GLOBAL_SCENE_CONTROL,
            ATTR_ON_TIME,
            ATTR_OFF_WAIT_TIME,
            ATTR_START_UP_ON_OFF,
        ],
        cmds: vec![
            CMD_OFF,
            CMD_ON,
            CMD_TOGGLE,
            CMD_OFF_WITH_EFFECT,
            CMD_ON_WITH_RECALL_GLOBAL_SCENE,
            CMD_ON_WITH_TIMED_OFF,
        ],
    }
}

/// The ids of a list of cluster descriptors, in order.
pub open spec fn cluster_ids(cs: Seq<ClusterDesc>) -> Seq<u32> {
    cs.map_values(|c: ClusterDesc| c.id)
}

impl Node {
    /// Endpoint `i` has id `ep` and its cluster `j` has id `cl`.
    pub open spec fn locates(self, i: int, j: int, ep: u16, cl: u32) -> bool {
        &&& 0 <= i < self.endpoints@.len()
        &&& self.endpoints@[i].id == ep
        &&& 0 <= j < self.endpoints@[i].clusters@.len()
        &&& self.endpoints@[i].clusters@[j].id == cl
    }

    /// Endpoint `ep` exposes cluster `cl`.
    pub open spec fn has_cluster(self, ep: u16, cl: u32) -> bool {
        exists|i: int, j: int| self.locates(i, j, ep, cl)
    }

    /// Endpoint `ep` exists, at index `i`.
    pub open spec fn endpoint_at(self, i: int, ep: u16) -> bool {
        0 <= i < self.endpoints@.len() && self.endpoints@[i].id == ep
    }

    /// Endpoint ids are unique, and so are cluster ids within an endpoint.
    pub open spec fn wf(self) -> bool {
        &&& forall|a: int, b: int|
            0 <= a < b < self.endpoints@.len() ==> self.endpoints@[a].id
                != self.endpoints@[b].id
        &&& forall|i: int, a: int, b: int|
            0 <= i < self.endpoints@.len() && 0 <= a < b < self.endpoints@[i].clusters@.len()
                ==> self.endpoints@[i].clusters@[a].id != self.endpoints@[i].clusters@[b].id
    }

    /// The node of this device: one light endpoint with the descriptor
    /// cluster and the on/off cluster narrowed to its mandatory attribute and
    /// the off, on and toggle commands.
    pub open spec fn is_garland(self) -> bool {
        &&& self.endpoints@.len() == 1
        &&& self.endpoints@[0].id == LIGHT_ENDPOINT_ID
        &&& self.endpoints@[0].device_type == DEVICE_TYPE_ON_OFF_LIGHT
        &&& self.endpoints@[0].clusters@.len() == 2
        &&& self.endpoints@[0].clusters@[0].id == CLUSTER_DESCRIPTOR
        &&& self.endpoints@[0].clusters@[0].revision == DESCRIPTOR_REVISION
        &&& self.endpoints@[0].clusters@[0].attrs@ == seq![
            ATTR_DEVICE_TYPE_LIST,
            ATTR_SERVER_LIST,
            ATTR_CLIENT_LIST,
            ATTR_PARTS_LIST,
        ]
        &&& self.endpoints@[0].clusters@[0].cmds@ == Seq::<u32>::empty()
        &&& self.endpoints@[0].clusters@[1].id == CLUSTER_ON_OFF
        &&& self.endpoints@[0].clusters@[1].revision == ON_OFF_REVISION
        &&& self.endpoints@[0].clusters@[1].attrs@ == seq![ATTR_ON_OFF]
        &&& self.endpoints@[0].clusters@[1].cmds@ == seq![CMD_OFF, CMD_ON, CMD_TOGGLE]
    }

    /// Builds the node of this device.
    pub fn garland() -> (r: Node)
        ensures
            r.is_garland(),
            r.wf(),
    {
        let full = full_on_off_cluster();
        let on_off = full.narrow(ON_OFF_REVISION, &vec![ATTR_ON_OFF], &vec![CMD_OFF, CMD_ON, CMD_TOGGLE]);
        proof {
            let attrs = seq![ATTR_ON_OFF];
            let cmds = seq![CMD_OFF, CMD_ON, CMD_TOGGLE];
            assert(attrs.contains(ATTR_ON_OFF)) by {
                assert(attrs[0] == ATTR_ON_OFF);
            }
            assert(cmds.contains(CMD_OFF)) by {
                assert(cmds[0] == CMD_OFF);
            }
            assert(cmds.contains(CMD_ON)) by {
                assert(cmds[1] == CMD_ON);
            }
            assert(cmds.contains(CMD_TOGGLE)) by {
                assert(cmds[2] == CMD_TOGGLE);
            }
            reveal_with_fuel(Seq::filter, 7);
            assert(on_off.attrs@ =~= seq![ATTR_ON_OFF]);
            assert(on_off.cmds@ =~= seq![CMD_OFF, CMD_ON, CMD_TOGGLE]);
        }
        let desc = ClusterDesc {
            id: CLUSTER_DESCRIPTOR,
            revision: DESCRIPTOR_REVISION,
            attrs: vec![ATTR_DEVICE_TYPE_LIST, ATTR_SERVER_LIST, ATTR_CLIENT_LIST, ATTR_PARTS_LIST],
            cmds: Vec::new(),
        };
        let light = EndpointDesc {
            id: LIGHT_ENDPOINT_ID,
            device_type: DEVICE_TYPE_ON_OFF_LIGHT,
            clusters: vec![desc, on_off],
        };
        Node { endpoints: vec![light] }
    }

    /// The index of endpoint `ep`, if it exists.
    pub fn find_endpoint(&self, ep: u16) -> (r: Option<usize>)
        ensures
            match r {
                Some(i) => self.endpoint_at(i as int, ep),
                None => forall|i: int| !self.endpoint_at(i, ep),
            },
    {
        let mut i: usize = 0;
        while i < self.endpoints.len()
            invariant
                i <= self.endpoints@.len(),
                forall|k: int| 0 <= k < i ==> self.endpoints@[k].id != ep,
            decreases self.endpoints@.len() - i,
        {
            if self.endpoints[i].id == ep {
                return Some(i);
            }
            i = i + 1;
        }
        None
    }

    /// The indices of cluster `cl` on endpoint `ep`, if the endpoint exposes it.
    pub fn find_cluster(&self, ep: u16, cl: u32) -> (r: Option<(usize, usize)>)
        requires
            self.wf(),
        ensures
            match r {
                Some((i, j)) => self.locates(i as int, j as int, ep, cl),
                None => !self.has_cluster(ep, cl),
            },
    {
        match self.find_endpoint(ep) {
            None => {
                assert forall|a: int, b: int| !self.locates(a, b, ep, cl) by {
                    assert(!self.endpoint_at(a, ep));
                }
                None
            },
            Some(i) => {
                let clusters = &self.endpoints[i].clusters;
                let mut j: usize = 0;
                while j < clusters.len()
                    invariant
                        j <= clusters@.len(),
                        self.endpoint_at(i as int, ep),
                        clusters@ == self.endpoints@[i as int].clusters@,
                        forall|k: int| 0 <= k < j ==> clusters@[k].id != cl,
                    decreases clusters@.len() - j,
                {
                    if clusters[j].id == cl {
                        return Some((i, j));
                    }
                    j = j + 1;
                }
                assert forall|a: int, b: int| !self.locates(a, b, ep, cl) by {
                    if self.locates(a, b, ep, cl) && a == i {
                        assert(clusters@[b].id != cl);
                    }
                    if self.locates(a, b, ep, cl) && a != i {
                        if a < i {
                            assert(self.endpoints@[a].id != self.endpoints@[i as int].id);
                        } else {
                            assert(self.endpoints@[i as int].id != self.endpoints@[a].id);
                        }
                    }
                }
                None
            },
        }
    }

    /// The ids of the clusters endpoint `ep` exposes, in order; `None` if there
    /// is no such endpoint.
    pub fn server_list(&self, ep: u16) -> (r: Option<Vec<u32>>)
        ensures
            match r {
                Some(v) => exists|i: int|
                    self.endpoint_at(i, ep) && v@ == cluster_ids(self.endpoints@[i].clusters@),
                None => forall|i: int| !self.endpoint_at(i, ep),
            },
    {
        match self.find_endpoint(ep) {
            None => None,
            Some(i) => {
                let clusters = &self.endpoints[i].clusters;
                let mut v: Vec<u32> = Vec::new();
                let mut j: usize = 0;
                while j < clusters.len()
                    invariant
                        j <= clusters@.len(),
                        v@ == cluster_ids(clusters@.take(j as int)),
                    decreases clusters@.len() - j,
                {
                    v.push(clusters[j].id);
                    j = j + 1;
                    assert(v@ =~= cluster_ids(clusters@.take(j as int)));
                }
                assert(clusters@.take(clusters@.len() as int) =~= clusters@);
                Some(v)
            },
        }
    }
}

/// On this device's node, exactly the descriptor and on/off clusters of the
/// light endpoint can be resolved, and they sit at these indices.
pub proof fn lemma_garland_clusters(n: Node, ep: u16, cl: u32)
    requires
        n.is_garland(),
    ensures
        n.has_cluster(ep, cl) <==> (ep == LIGHT_ENDPOINT_ID && (cl == CLUSTER_DESCRIPTOR || cl
            == CLUSTER_ON_OFF)),
        forall|i: int, j: int|
            n.locates(i, j, ep, cl) ==> i == 0 && j == if cl == CLUSTER_DESCRIPTOR {
                0int
            } else {
                1int
            },
{
    if ep == LIGHT_ENDPOINT_ID && cl == CLUSTER_DESCRIPTOR {
        assert(n.locates(0, 0, ep, cl));
    }
    if ep == LIGHT_ENDPOINT_ID && cl == CLUSTER_ON_OFF {
        assert(n.locates(0, 1, ep, cl));
    }
}

} // verus!
