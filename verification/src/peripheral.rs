use vstd::prelude::*;
use crate::dimelement::DimElement;
use crate::interrupt::Interrupt;
use crate::register::Register;
use crate::registerproperties::RegisterProperties;

verus! {

/// The content of a cluster: registers and clusters under a common offset.
#[derive(Debug, PartialEq, Eq)]
pub struct ClusterInfo {
    /// Name of the cluster.
    pub name: String,
    /// What the cluster is for.
    pub description: Option<String>,
    /// Offset of the cluster from the base of what encloses it.
    pub address_offset: u32,
    /// Register properties that the cluster sets itself.
    pub default_register_properties: RegisterProperties,
    /// The registers and clusters within, in document order.
    pub children: Vec<RegisterCluster>,
    /// Name of the cluster from which this one takes its content.
    pub derived_from: Option<String>,
}

/// A cluster, alone or as an array.
#[derive(Debug, PartialEq, Eq)]
pub enum Cluster {
    /// One cluster.
    Single(ClusterInfo),
    /// A cluster repeated as the array description says.
    Array(ClusterInfo, DimElement),
}

/// An entry of a peripheral or cluster.
#[derive(Debug, PartialEq, Eq)]
pub enum RegisterCluster {
    Register(Register),
    Cluster(Cluster),
}

/// The content of a peripheral.
#[derive(Debug, PartialEq, Eq)]
pub struct PeripheralInfo {
    /// Name of the peripheral.
    pub name: String,
    /// What the peripheral is for.
    pub description: Option<String>,
    /// Lowest address of the peripheral.
    pub base_address: u64,
    /// The interrupts of the peripheral.
    pub interrupt: Vec<Interrupt>,
    /// Register properties that the peripheral sets itself.
    pub default_register_properties: RegisterProperties,
    /// The registers and clusters of the peripheral, in document order.
    pub registers: Option<Vec<RegisterCluster>>,
    /// Name of the peripheral from which this one takes its content.
    pub derived_from: Option<String>,
}

/// A peripheral, alone or as an array.
#[derive(Debug, PartialEq, Eq)]
pub enum Peripheral {
    /// One peripheral.
    Single(PeripheralInfo),
    /// A peripheral repeated as the array description says.
    Array(PeripheralInfo, DimElement),
}

} // verus!
