//! Where components are placed, and what carries the signals between them.

use vstd::prelude::*;

verus! {

/// What carries a signal from one component to another.
#[derive(Debug, PartialEq, Eq)]
pub enum EdgeTransport {
    /// A buffer on the device that hosts both components.
    LocalBuffer { device_id: String },
    /// A copy from one device to another.
    CrossDevice { from_device_id: String, to_device_id: String },
}

#[verifier::ext_equal]
pub enum EdgeTransportView {
    LocalBuffer { device_id: Seq<char> },
    CrossDevice { from_device_id: Seq<char>, to_device_id: Seq<char> },
}

impl DeepView for EdgeTransport {
    type V = EdgeTransportView;

    open spec fn deep_view(&self) -> EdgeTransportView {
        match self {
            EdgeTransport::LocalBuffer { device_id } => EdgeTransportView::LocalBuffer { device_id: device_id.deep_view() },
            EdgeTransport::CrossDevice { from_device_id, to_device_id } => EdgeTransportView::CrossDevice { from_device_id: from_device_id.deep_view(), to_device_id: to_device_id.deep_view() },
        }
    }
}

impl View for EdgeTransport {
    type V = EdgeTransportView;

    open spec fn view(&self) -> EdgeTransportView {
        self.deep_view()
    }
}

impl Clone for EdgeTransport {
    fn clone(&self) -> (r: Self)
        ensures
            r@ == self@,
    {
        match self {
            EdgeTransport::LocalBuffer { device_id } => EdgeTransport::LocalBuffer { device_id: device_id.clone() },
            EdgeTransport::CrossDevice { from_device_id, to_device_id } => EdgeTransport::CrossDevice { from_device_id: from_device_id.clone(), to_device_id: to_device_id.clone() },
        }
    }
}

/// A signal between two placed components.
#[derive(Debug, PartialEq, Eq)]
pub struct ComponentEdgePlacement {
    pub edge_index: usize,
    pub signal: String,
    pub shape: Vec<usize>,
    pub source_device_id: String,
    pub source_component_id: String,
    pub source_port_id: String,
    pub source_component_port: Option<String>,
    pub destination_device_id: String,
    pub destination_component_id: String,
    pub destination_port_id: String,
    pub destination_component_port: Option<String>,
    pub transport: EdgeTransport,
}

#[verifier::ext_equal]
pub struct ComponentEdgePlacementView {
    pub edge_index: usize,
    pub signal: Seq<char>,
    pub shape: Seq<usize>,
    pub source_device_id: Seq<char>,
    pub source_component_id: Seq<char>,
    pub source_port_id: Seq<char>,
    pub source_component_port: Option<Seq<char>>,
    pub destination_device_id: Seq<char>,
    pub destination_component_id: Seq<char>,
    pub destination_port_id: Seq<char>,
    pub destination_component_port: Option<Seq<char>>,
    pub transport: EdgeTransportView,
}

impl DeepView for ComponentEdgePlacement {
    type V = ComponentEdgePlacementView;

    open spec fn deep_view(&self) -> ComponentEdgePlacementView {
        ComponentEdgePlacementView {
            edge_index: self.edge_index,
            signal: self.signal.deep_view(),
            shape: self.shape.deep_view(),
            source_device_id: self.source_device_id.deep_view(),
            source_component_id: self.source_component_id.deep_view(),
            source_port_id: self.source_port_id.deep_view(),
            source_component_port: self.source_component_port.deep_view(),
            destination_device_id: self.destination_device_id.deep_view(),
            destination_component_id: self.destination_component_id.deep_view(),
            destination_port_id: self.destination_port_id.deep_view(),
            destination_component_port: self.destination_component_port.deep_view(),
            transport: self.transport.deep_view(),
        }
    }
}

impl View for ComponentEdgePlacement {
    type V = ComponentEdgePlacementView;

    open spec fn view(&self) -> ComponentEdgePlacementView {
        self.deep_view()
    }
}

impl Clone for ComponentEdgePlacement {
    fn clone(&self) -> (r: Self)
        ensures
            r@ == self@,
    {
        ComponentEdgePlacement {
            edge_index: self.edge_index,
            signal: self.signal.clone(),
            shape: self.shape.clone(),
            source_device_id: self.source_device_id.clone(),
            source_component_id: self.source_component_id.clone(),
            source_port_id: self.source_port_id.clone(),
            source_component_port: self.source_component_port.clone(),
            destination_device_id: self.destination_device_id.clone(),
            destination_component_id: self.destination_component_id.clone(),
            destination_port_id: self.destination_port_id.clone(),
            destination_component_port: self.destination_component_port.clone(),
            transport: self.transport.clone(),
        }
    }
}

} // verus!
