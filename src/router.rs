//! The command router: resolves a decoded invocation against the descriptor
//! tree and forwards it to the on/off controller or the descriptor cluster.
use vstd::prelude::*;

use crate::controller::{step, GarlandController, OnOffCommand};
use crate::descriptor::{
    cluster_ids, contains_id, lemma_garland_clusters, Node, ATTR_CLIENT_LIST,
    ATTR_DEVICE_TYPE_LIST, ATTR_ON_OFF, ATTR_PARTS_LIST, ATTR_SERVER_LIST, CLUSTER_DESCRIPTOR,
    CLUSTER_ON_OFF, CMD_OFF, CMD_ON, CMD_TOGGLE, DEVICE_TYPE_ON_OFF_LIGHT, LIGHT_ENDPOINT_ID,
};

verus! {

/// A value read from, or written to, an attribute.
#[derive(Clone, Debug, PartialEq, Eq)]
pub enum AttrValue {
    Bool(bool),
    List(Vec<u32>),
}

/// What an invocation asks of a cluster.
#[derive(Clone, Debug, PartialEq, Eq)]
pub enum Operation {
    ReadAttribute(u32),
    WriteAttribute(u32, AttrValue),
    Invoke(u32),
}

/// A decoded invocation addressed to one cluster of one endpoint.
#[derive(Clone, Debug, PartialEq, Eq)]
pub struct Invocation {
    pub endpoint: u16,
    pub cluster: u32,
    pub op: Operation,
}

/// The answer to a successful invocation.
#[derive(Clone, Debug, PartialEq, Eq)]
pub enum Reply {
    /// The value of the attribute that was read.
    Value(AttrValue),
    /// The command was applied; the actuator must be driven to this level.
    Drive(bool),
}

/// Why an invocation found no handler.
#[derive(Clone, Copy, Debug, PartialEq, Eq, Structural)]
pub enum RouteError {
    /// No such endpoint, cluster, attribute or command.
    NotFound,
    /// The attribute exists but cannot be written.
    UnsupportedWrite,
}

/// The on/off command with this id.
pub open spec fn command_of(id: u32) -> Option<OnOffCommand> {
    if id == CMD_OFF {
        Some(OnOffCommand::Off)
    } else if id == CMD_ON {
        Some(OnOffCommand::On)
    } else if id == CMD_TOGGLE {
        Some(OnOffCommand::Toggle)
    } else {
        None
    }
}

/// Whether `r` is a read of a list holding exactly `s`.
pub open spec fn is_list(r: Result<Reply, RouteError>, s: Seq<u32>) -> bool {
    match r {
        Ok(Reply::Value(AttrValue::List(v))) => v@ == s,
        _ => false,
    }
}

/// What routing `inv` on this device returns, given the controller before
/// (`c`) and after (`d`).
pub open spec fn routed(
    c: GarlandController,
    inv: Invocation,
    r: Result<Reply, RouteError>,
    d: GarlandController,
) -> bool {
    if inv.endpoint != LIGHT_ENDPOINT_ID || (inv.cluster != CLUSTER_ON_OFF && inv.cluster
        != CLUSTER_DESCRIPTOR) {
        r == Err::<Reply, RouteError>(RouteError::NotFound) && d == c
    } else if inv.cluster == CLUSTER_ON_OFF {
        match inv.op {
            Operation::ReadAttribute(a) => d == c && r == if a == ATTR_ON_OFF {
                Ok::<Reply, RouteError>(Reply::Value(AttrValue::Bool(c.on())))
            } else {
                Err(RouteError::NotFound)
            },
            Operation::WriteAttribute(a, _) => d == c && r == Err::<Reply, RouteError>(
                if a == ATTR_ON_OFF {
                    RouteError::UnsupportedWrite
                } else {
                    RouteError::NotFound
                },
            ),
            Operation::Invoke(id) => match command_of(id) {
                Some(cmd) => {
                    &&& d.on() == step(c.on(), cmd)
                    &&& d.policy() == c.policy()
                    &&& r == Ok::<Reply, RouteError>(Reply::Drive(step(c.on(), cmd)))
                },
                None => d == c && r == Err::<Reply, RouteError>(RouteError::NotFound),
            },
        }
    } else {
        d == c && match inv.op {
            Operation::ReadAttribute(a) => if a == ATTR_DEVICE_TYPE_LIST {
                is_list(r, seq![DEVICE_TYPE_ON_OFF_LIGHT])
            } else if a == ATTR_SERVER_LIST {
                is_list(r, seq![CLUSTER_DESCRIPTOR, CLUSTER_ON_OFF])
            } else if a == ATTR_CLIENT_LIST || a == ATTR_PARTS_LIST {
                is_list(r, Seq::empty())
            } else {
                r == Err::<Reply, RouteError>(RouteError::NotFound)
            },
            Operation::WriteAttribute(a, _) => r == Err::<Reply, RouteError>(
                if a == ATTR_DEVICE_TYPE_LIST || a == ATTR_SERVER_LIST || a == ATTR_CLIENT_LIST
                    || a == ATTR_PARTS_LIST {
                    RouteError::UnsupportedWrite
                } else {
                    RouteError::NotFound
                },
            ),
            Operation::Invoke(_) => r == Err::<Reply, RouteError>(RouteError::NotFound),
        }
    }
}

/// The on/off command with this id, if it is one.
pub fn on_off_command(id: u32) -> (r: Option<OnOffCommand>)
    ensures
        r == command_of(id),
{
    if id == CMD_OFF {
        Some(OnOffCommand::Off)
    } else if id == CMD_ON {
        Some(OnOffCommand::On)
    } else if id == CMD_TOGGLE {
        Some(OnOffCommand::Toggle)
    } else {
        None
    }
}

/// The device: its descriptor tree and the controller of its load.
pub struct Device {
    pub node: Node,
    pub controller: GarlandController,
}

impl Device {
    /// The descriptor tree is this device's node.
    pub open spec fn wf(&self) -> bool {
        self.node.is_garland() && self.node.wf()
    }

    /// A device whose controller is `controller`.
    pub fn new(controller: GarlandController) -> (r: Device)
        ensures
            r.wf(),
            r.controller == controller,
    {
        Device { node: Node::garland(), controller }
    }

    /// Routes one invocation to the handler of its cluster.
    pub fn dispatch(&mut self, inv: &Invocation) -> (r: Result<Reply, RouteError>)
        requires
            old(self).wf(),
        ensures
            final(self).wf(),
            routed(old(self).controller, *inv, r, final(self).controller),
    {
        proof {
            lemma_garland_clusters(self.node, inv.endpoint, inv.cluster);
        }
        let (i, j) = match self.node.find_cluster(inv.endpoint, inv.cluster) {
            None => {
                return Err(RouteError::NotFound);
            },
            Some(found) => found,
        };
        let cluster = &self.node.endpoints[i].clusters[j];
        let declared = match &inv.op {
            Operation::ReadAttribute(a) => contains_id(&cluster.attrs, *a),
            Operation::WriteAttribute(a, _) => contains_id(&cluster.attrs, *a),
            Operation::Invoke(c) => contains_id(&cluster.cmds, *c),
        };
        proof {
            let attrs = cluster.attrs@;
            let cmds = cluster.cmds@;
            if j == 1 {
                assert(attrs[0] == ATTR_ON_OFF);
                assert(cmds[0] == CMD_OFF && cmds[1] == CMD_ON && cmds[2] == CMD_TOGGLE);
            } else {
                assert(attrs[0] == ATTR_DEVICE_TYPE_LIST && attrs[1] == ATTR_SERVER_LIST);
                assert(attrs[2] == ATTR_CLIENT_LIST && attrs[3] == ATTR_PARTS_LIST);
            }
        }
        if !declared {
            return Err(RouteError::NotFound);
        }
        if cluster.id == CLUSTER_ON_OFF {
            match &inv.op {
                Operation::ReadAttribute(a) => if *a == ATTR_ON_OFF {
                    Ok(Reply::Value(AttrValue::Bool(self.controller.get_state())))
                } else {
                    Err(RouteError::NotFound)
                },
                Operation::WriteAttribute(_, _) => Err(RouteError::UnsupportedWrite),
                Operation::Invoke(c) => match on_off_command(*c) {
                    Some(cmd) => Ok(Reply::Drive(self.controller.apply(cmd))),
                    None => Err(RouteError::NotFound),
                },
            }
        } else {
            match &inv.op {
                Operation::ReadAttribute(a) => if *a == ATTR_DEVICE_TYPE_LIST {
                    let dt = self.node.endpoints[i].device_type;
                    let v = vec![dt];
                    assert(v@ =~= seq![DEVICE_TYPE_ON_OFF_LIGHT]);
                    Ok(Reply::Value(AttrValue::List(v)))
                } else if *a == ATTR_SERVER_LIST {
                    assert(self.node.endpoint_at(0, inv.endpoint));
                    match self.node.server_list(inv.endpoint) {
                        Some(v) => {
                            assert(cluster_ids(self.node.endpoints@[0].clusters@) =~= seq![
                                CLUSTER_DESCRIPTOR,
                                CLUSTER_ON_OFF,
                            ]);
                            Ok(Reply::Value(AttrValue::List(v)))
                        },
                        None => Err(RouteError::NotFound),
                    }
                } else {
                    Ok(Reply::Value(AttrValue::List(Vec::new())))
                },
                Operation::WriteAttribute(_, _) => Err(RouteError::UnsupportedWrite),
                Operation::Invoke(_) => Err(RouteError::NotFound),
            }
        }
    }
}

/// An invocation addressed to a cluster the device does not expose finds no
/// handler, asks for no actuator write and leaves the controller as it was.
pub proof fn lemma_unregistered_cluster(
    c: GarlandController,
    inv: Invocation,
    r: Result<Reply, RouteError>,
    d: GarlandController,
)
    requires
        routed(c, inv, r, d),
        inv.cluster != CLUSTER_ON_OFF,
        inv.cluster != CLUSTER_DESCRIPTOR,
    ensures
        r == Err::<Reply, RouteError>(RouteError::NotFound),
        d == c,
{
}

} // verus!
