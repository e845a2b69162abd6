//! The configuration of a node and the requests that the placement center takes.

use vstd::prelude::*;

verus! {

/// The texts of a list of strings.
pub open spec fn texts(strings: Seq<String>) -> Seq<Seq<char>> {
    strings.map_values(|string: String| string@)
}

/// Where a node can be reached.
#[derive(Debug, PartialEq, Eq)]
pub struct Network {
    pub local_ip: String,
    pub grpc_port: u32,
    pub tcp_port: u32,
    pub tcps_port: u32,
}

/// Where a node keeps its data.
#[derive(Debug, PartialEq, Eq)]
pub struct Storage {
    pub data_path: Vec<String>,
}

/// What the reporting reads of a node's configuration.
#[derive(Debug, PartialEq, Eq)]
pub struct JournalServerConfig {
    pub cluster_name: String,
    pub node_id: u64,
    /// The addresses of the placement center.
    pub placement_center: Vec<String>,
    pub network: Network,
    pub storage: Storage,
}

/// The kind of cluster that a node belongs to.
#[derive(Debug, Clone, Copy, PartialEq, Eq, Structural)]
pub enum ClusterType {
    PlacementCenter,
    JournalServer,
    MqttBrokerServer,
}

/// Makes a node known.
#[derive(Debug, PartialEq, Eq)]
pub struct RegisterNodeRequest {
    pub cluster_type: ClusterType,
    pub cluster_name: String,
    pub node_id: u64,
    pub node_ip: String,
    pub node_inner_addr: String,
    pub extend_info: String,
}

/// The model of a [`RegisterNodeRequest`].
pub struct Registration {
    pub cluster_type: ClusterType,
    pub cluster_name: Seq<char>,
    pub node_id: u64,
    pub node_ip: Seq<char>,
    pub node_inner_addr: Seq<char>,
    pub extend_info: Seq<char>,
}

impl View for RegisterNodeRequest {
    type V = Registration;

    open spec fn view(&self) -> Registration {
        Registration {
            cluster_type: self.cluster_type,
            cluster_name: self.cluster_name@,
            node_id: self.node_id,
            node_ip: self.node_ip@,
            node_inner_addr: self.node_inner_addr@,
            extend_info: self.extend_info@,
        }
    }
}

/// Takes a node out of its cluster.
#[derive(Debug, PartialEq, Eq)]
pub struct UnRegisterNodeRequest {
    pub cluster_type: ClusterType,
    pub cluster_name: String,
    pub node_id: u64,
}

/// Tells that a node is alive.
#[derive(Debug, PartialEq, Eq)]
pub struct HeartbeatRequest {
    pub cluster_name: String,
    pub cluster_type: ClusterType,
    pub node_id: u64,
}

/// The model of a registration has the fields of the request.
pub proof fn law_registration_model(request: RegisterNodeRequest)
    ensures
        request@.cluster_type == request.cluster_type,
        request@.cluster_name == request.cluster_name@,
        request@.node_id == request.node_id,
        request@.node_ip == request.node_ip@,
        request@.node_inner_addr == request.node_inner_addr@,
        request@.extend_info == request.extend_info@,
{
}

} // verus!
