//! The record of a deck that the monitor keeps on disk.
use vstd::prelude::*;
use crate::message::{AddHyperdeckRequest, ClientRequest, HyperdeckState, HyperdeckStateView};
use crate::monitor::after_client_request;
use vstd::std_specs::convert::FromSpec;

verus! {

/// The persisted part of a deck: how to reach it and what to call it.
#[derive(Debug)]
pub struct StoredHyperdeck {
    pub name: String,
    pub ip: String,
    pub port: u16,
}

/// The mathematical value of a `StoredHyperdeck`.
#[verifier::ext_equal]
pub struct StoredHyperdeckView {
    pub name: Seq<char>,
    pub ip: Seq<char>,
    pub port: u16,
}

impl View for StoredHyperdeck {
    type V = StoredHyperdeckView;

    open spec fn view(&self) -> StoredHyperdeckView {
        StoredHyperdeckView { name: self.name@, ip: self.ip@, port: self.port }
    }
}

impl From<HyperdeckState> for StoredHyperdeck {
    /// Keeps the name, address and port of a deck; drops its live state.
    fn from(value: HyperdeckState) -> (r: Self)
        ensures
            r@ == (StoredHyperdeckView { name: value.name@, ip: value.ip@, port: value.port }),
    {
        let HyperdeckState { name, ip, port, connection_state: _, recording_status: _, slots: _ } =
            value;
        StoredHyperdeck { name, ip, port }
    }
}

impl vstd::std_specs::convert::FromSpecImpl<HyperdeckState> for StoredHyperdeck {
    open spec fn obeys_from_spec() -> bool {
        true
    }

    open spec fn from_spec(v: HyperdeckState) -> Self {
        StoredHyperdeck { name: v.name, ip: v.ip, port: v.port }
    }
}

/// A deck that a request added is stored with the name, address and port of
/// that request.
pub proof fn lemma_added_deck_stored_as_requested(
    hs: Map<Seq<char>, HyperdeckStateView>,
    add: AddHyperdeckRequest,
    new_id: Seq<char>,
    deck: HyperdeckState,
)
    requires
        deck@ == after_client_request(hs, ClientRequest::AddHyperdeck(add), new_id)[new_id],
    ensures
        StoredHyperdeck::from_spec(deck)@ == (StoredHyperdeckView {
            name: add.name@,
            ip: add.ip@,
            port: add.port,
        }),
{
}

/// Every deck, whatever its connection state, recording state and bays, is
/// stored with its own name, address and port.
pub proof fn lemma_stored_record_keeps_name_address_port(v: HyperdeckState)
    ensures
        StoredHyperdeck::from_spec(v)@ == (StoredHyperdeckView {
            name: v.name@,
            ip: v.ip@,
            port: v.port,
        }),
        StoredHyperdeck::from_spec(v).name == v.name,
        StoredHyperdeck::from_spec(v).ip == v.ip,
        StoredHyperdeck::from_spec(v).port == v.port,
{
}

} // verus!
