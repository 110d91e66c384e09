//! Everything that a session's reactor owns.

use vstd::prelude::*;

use crate::cm::{CmState, CmView};
use crate::registry::{ConnectionRegistry, RegistryView};
use crate::requests::{AcceptRequest, ListenRequest, OutboundRequest};
use crate::slots::{SlotRegistry, SlotsView};

verus! {

/// The contents of a session's tables.
#[verifier::ext_equal]
pub struct TablesView {
    pub cm: CmView,
    pub connections: RegistryView,
    pub connects: SlotsView<OutboundRequest>,
    pub listens: SlotsView<ListenRequest>,
    pub accepts: SlotsView<AcceptRequest>,
}

/// The tables of a session: the connection manager's state, the connections, and the
/// requests that wait.
pub struct SessionTables {
    pub cm: CmState,
    pub connections: ConnectionRegistry,
    pub connects: SlotRegistry<OutboundRequest>,
    pub listens: SlotRegistry<ListenRequest>,
    pub accepts: SlotRegistry<AcceptRequest>,
}

impl SessionTables {
    pub open spec fn view(&self) -> TablesView {
        TablesView {
            cm: self.cm@,
            connections: self.connections@,
            connects: self.connects@,
            listens: self.listens@,
            accepts: self.accepts@,
        }
    }

    pub open spec fn wf(&self) -> bool {
        &&& self.cm.wf()
        &&& self.connections.wf()
        &&& self.connects.wf()
        &&& self.listens.wf()
        &&& self.accepts.wf()
    }
}

} // verus!
