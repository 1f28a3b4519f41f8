//! The external convergence layer interface: modules that connect over a
//! transport layer, register under a name, and then exchange bundles and
//! beacons with the node.
use vstd::prelude::*;
use crate::assoc::{
    keys_unique, table_map, table_find, lemma_table_dom, lemma_table_value, lemma_table_push,
    lemma_table_update, lemma_table_remove,
};
use crate::bp::eid::EndpointID;
use crate::dtnd::ws::{cbor_bundle, decode_bundle};

verus! {

/// A module registers under `name`.
#[derive(Debug)]
pub struct RegisterPacket {
    pub name: String,
    pub enable_beacon: bool,
}

/// A bundle, as bytes, from `src` to `dst` in the module's own addressing.
#[derive(Debug)]
pub struct ForwardDataPacket {
    pub src: String,
    pub dst: String,
    pub data: Vec<u8>,
}

/// A node that announced itself: its endpoint, its address in the module's
/// addressing and its encoded service block.
#[derive(Debug)]
pub struct Beacon {
    pub eid: EndpointID,
    pub addr: String,
    pub service_block: Vec<u8>,
}

/// What a module and the node send each other.
#[derive(Debug)]
pub enum Packet {
    RegisterPacket(RegisterPacket),
    Beacon(Beacon),
    ForwardDataPacket(ForwardDataPacket),
}

/// The transport layer for modules over TCP, on `port`.
#[derive(Debug, Clone, Copy, Default, PartialEq, Eq, Structural)]
pub struct TCPTransportLayer {
    pub port: u16,
}

impl TCPTransportLayer {
    /// The layer on `port`.
    pub fn new(port: u16) -> (r: TCPTransportLayer)
        ensures
            r.port == port,
    {
        TCPTransportLayer { port }
    }
}

/// The transport layer for modules over WebSocket, on `port`.
#[derive(Debug, Clone, Copy, Default, PartialEq, Eq, Structural)]
pub struct WebsocketTransportLayer {
    pub port: u16,
}

impl WebsocketTransportLayer {
    /// The layer on `port`.
    pub fn new(port: u16) -> (r: WebsocketTransportLayer)
        ensures
            r.port == port,
    {
        WebsocketTransportLayer { port }
    }
}

/// The transport layers.
#[derive(Debug, Clone, Copy, PartialEq, Eq, Structural)]
pub enum TransportLayerEnum {
    WebsocketTransportLayer(WebsocketTransportLayer),
    TCPTransportLayer(TCPTransportLayer),
}

impl View for TransportLayerEnum {
    type V = TransportLayerEnum;

    open spec fn view(&self) -> TransportLayerEnum {
        *self
    }
}

/// The name each layer goes by.
pub open spec fn layer_name(l: TransportLayerEnum) -> Seq<char> {
    match l {
        TransportLayerEnum::WebsocketTransportLayer(_) => "Websocket"@,
        TransportLayerEnum::TCPTransportLayer(_) => "TCP"@,
    }
}

impl TransportLayerEnum {
    /// The layer's name.
    pub fn name(&self) -> (r: String)
        ensures
            r@ == layer_name(*self),
    {
        match self {
            TransportLayerEnum::WebsocketTransportLayer(_) => "Websocket".to_owned(),
            TransportLayerEnum::TCPTransportLayer(_) => "TCP".to_owned(),
        }
    }
}

/// Whether a connected module has registered yet.
#[derive(Debug, Clone, Copy, PartialEq, Eq, Structural)]
pub enum ModuleState {
    /// It has not yet said its name.
    WaitingForIdent,
    /// It has registered and exchanges packets.
    Active,
}

/// A connected module: its state, the name it registered, the layer it came
/// through and whether it gets the node's beacons.
#[derive(Debug)]
pub struct Module {
    pub state: ModuleState,
    pub name: String,
    pub layer: String,
    pub enable_beacon: bool,
}

/// `Module` as values.
pub struct ModuleView {
    pub state: ModuleState,
    pub name: Seq<char>,
    pub layer: Seq<char>,
    pub enable_beacon: bool,
}

impl View for Module {
    type V = ModuleView;

    open spec fn view(&self) -> ModuleView {
        ModuleView {
            state: self.state,
            name: self.name@,
            layer: self.layer@,
            enable_beacon: self.enable_beacon,
        }
    }
}

/// The connected modules, by address, and the transport layers, by name.
pub struct EclaView {
    pub modules: Map<Seq<char>, ModuleView>,
    pub layers: Map<Seq<char>, TransportLayerEnum>,
}

/// What the node does after a packet from a module.
#[derive(Debug)]
pub enum EclaAction {
    /// Nothing.
    Nothing,
    /// Add an external agent under this name, and send the module the
    /// node's own beacon.
    AddCla(String),
    /// Receive this bundle, which a module forwarded.
    ReceiveBundle(bp7::Bundle),
    /// Add the announced node as a dynamic peer and tell routing about it.
    AddPeer(Beacon),
}

/// The connected modules and the transport layers they come through.
#[derive(Debug)]
pub struct EclaRegistry {
    modules: Vec<(String, Module)>,
    layers: Vec<(String, TransportLayerEnum)>,
}

impl View for EclaRegistry {
    type V = EclaView;

    closed spec fn view(&self) -> EclaView {
        EclaView { modules: table_map(self.modules@), layers: table_map(self.layers@) }
    }
}

/// A module that has just connected through `layer`.
pub open spec fn fresh_module(layer: Seq<char>) -> ModuleView {
    ModuleView { state: ModuleState::WaitingForIdent, name: Seq::empty(), layer, enable_beacon: true }
}

/// A waiting module after it registered as `name`.
pub open spec fn registered_module(m: ModuleView, name: Seq<char>) -> ModuleView {
    ModuleView { state: ModuleState::Active, name, layer: m.layer, enable_beacon: m.enable_beacon }
}

pub open spec fn names_view(v: Seq<String>) -> Seq<Seq<char>> {
    v.map_values(|s: String| s@)
}

/// Whether a packet from `addr` through `layer` reaches a known module over
/// a known layer.
pub open spec fn packet_known(e: EclaView, layer: Seq<char>, addr: Seq<char>) -> bool {
    e.modules.contains_key(addr) && e.layers.contains_key(layer)
}

/// Whether the packet registers a module that is waiting for its name.
pub open spec fn packet_registers(e: EclaView, layer: Seq<char>, addr: Seq<char>, p: Packet) -> bool {
    packet_known(e, layer, addr) && e.modules[addr].state == ModuleState::WaitingForIdent
        && p is RegisterPacket
}

/// Whether the packet comes from a registered module.
pub open spec fn packet_from_active(e: EclaView, layer: Seq<char>, addr: Seq<char>) -> bool {
    packet_known(e, layer, addr) && e.modules[addr].state == ModuleState::Active
}

/// A module registers once: once a packet from it has registered it, no
/// later packet registers it again, whatever it holds.
pub proof fn law_registration_once(e: EclaView, layer: Seq<char>, addr: Seq<char>, name: Seq<char>, later: Packet)
    requires
        e.modules.contains_key(addr),
    ensures
        !packet_registers(
            EclaView {
                modules: e.modules.insert(addr, registered_module(e.modules[addr], name)),
                layers: e.layers,
            },
            layer,
            addr,
            later,
        ),
{
}

fn contains_name(names: &Vec<String>, name: &String) -> (r: bool)
    ensures
        r == names_view(names@).contains(name@),
{
    let mut i: usize = 0;
    while i < names.len()
        invariant
            0 <= i <= names@.len(),
            forall|j: int| 0 <= j < i ==> names@[j]@ != name@,
        decreases names@.len() - i,
    {
        if names[i] == *name {
            assert(names_view(names@)[i as int] == name@);
            return true;
        }
        i = i + 1;
    }
    proof {
        if names_view(names@).contains(name@) {
            let k = choose|k: int| 0 <= k < names_view(names@).len() && names_view(names@)[k] == name@;
            assert(names@[k]@ == name@);
        }
    }
    false
}

impl EclaRegistry {
    #[verifier::type_invariant]
    closed spec fn tables_keyed(&self) -> bool {
        &&& keys_unique(self.modules@)
        &&& keys_unique(self.layers@)
        &&& forall|i: int|
            0 <= i < self.layers@.len() ==> #[trigger] self.layers@[i].0@ == layer_name(
                self.layers@[i].1,
            )
    }

    /// No modules, no layers.
    pub fn new() -> (r: EclaRegistry)
        ensures
            r@.modules == Map::<Seq<char>, ModuleView>::empty(),
            r@.layers == Map::<Seq<char>, TransportLayerEnum>::empty(),
    {
        EclaRegistry { modules: Vec::new(), layers: Vec::new() }
    }

    /// Adds a transport layer under its name, replacing one of the same name.
    pub fn add_layer(&mut self, layer: TransportLayerEnum)
        ensures
            final(self)@.layers == old(self)@.layers.insert(layer_name(layer), layer),
            final(self)@.modules == old(self)@.modules,
    {
        proof {
            use_type_invariant(&*self);
        }
        let name = layer.name();
        let entry = (name, layer);
        let mut layers = Vec::new();
        std::mem::swap(&mut layers, &mut self.layers);
        match table_find(&layers, entry.0.as_str()) {
            Some(i) => {
                proof {
                    lemma_table_update(layers@, i as int, entry);
                }
                layers.set(i, entry);
            },
            None => {
                proof {
                    lemma_table_push(layers@, entry);
                }
                layers.push(entry);
            },
        }
        self.layers = layers;
    }

    /// A packet from the module at `addr` through the layer `layer_name`;
    /// `cla_names` are the names of the node's agents. A waiting module
    /// registers with its first `RegisterPacket` (other packets are
    /// ignored), and its agent is added unless the name is taken. A
    /// registered module's bundles are received and its beacons add peers.
    /// Packets from unknown modules or layers are ignored.
    pub fn handle_packet(
        &mut self,
        layer_name: &str,
        addr: &str,
        packet: Packet,
        cla_names: &Vec<String>,
    ) -> (r: EclaAction)
        ensures
            final(self)@.layers == old(self)@.layers,
            !packet_registers(old(self)@, layer_name@, addr@, packet) ==> final(self)@.modules
                == old(self)@.modules,
            packet_registers(old(self)@, layer_name@, addr@, packet) ==> {
                &&& final(self)@.modules == old(self)@.modules.insert(
                    addr@,
                    registered_module(old(self)@.modules[addr@], packet->RegisterPacket_0.name@),
                )
                &&& if names_view(cla_names@).contains(packet->RegisterPacket_0.name@) {
                    r is Nothing
                } else {
                    r matches EclaAction::AddCla(n) && n@ == packet->RegisterPacket_0.name@
                }
            },
            packet_from_active(old(self)@, layer_name@, addr@) ==> match packet {
                Packet::ForwardDataPacket(f) => match cbor_bundle(f.data@) {
                    Some(b) => r matches EclaAction::ReceiveBundle(d) && d == b,
                    None => r is Nothing,
                },
                Packet::Beacon(b) => r matches EclaAction::AddPeer(b2) && b2 == b,
                Packet::RegisterPacket(_) => r is Nothing,
            },
            !packet_registers(old(self)@, layer_name@, addr@, packet) && !packet_from_active(
                old(self)@,
                layer_name@,
                addr@,
            ) ==> r is Nothing,
    {
        proof {
            use_type_invariant(&*self);
        }
        let layer_index = table_find(&self.layers, layer_name);
        let module_index = table_find(&self.modules, addr);
        proof {
            lemma_table_dom(self.layers@, layer_name@);
            lemma_table_dom(self.modules@, addr@);
        }
        match (module_index, layer_index) {
            (Some(i), Some(_)) => {
                proof {
                    lemma_table_value(self.modules@, i as int);
                }
                match self.modules[i].1.state {
                    ModuleState::WaitingForIdent => {
                        match packet {
                            Packet::RegisterPacket(ident) => {
                                let taken = contains_name(cla_names, &ident.name);
                                let module = Module {
                                    state: ModuleState::Active,
                                    name: ident.name.clone(),
                                    layer: self.modules[i].1.layer.clone(),
                                    enable_beacon: self.modules[i].1.enable_beacon,
                                };
                                let entry = (self.modules[i].0.clone(), module);
                                let mut modules = Vec::new();
                                std::mem::swap(&mut modules, &mut self.modules);
                                proof {
                                    lemma_table_update(modules@, i as int, entry);
                                }
                                modules.set(i, entry);
                                self.modules = modules;
                                if taken {
                                    EclaAction::Nothing
                                } else {
                                    EclaAction::AddCla(ident.name)
                                }
                            },
                            _ => EclaAction::Nothing,
                        }
                    },
                    ModuleState::Active => {
                        match packet {
                            Packet::ForwardDataPacket(fwd) => match decode_bundle(fwd.data.as_slice()) {
                                Some(b) => EclaAction::ReceiveBundle(b),
                                None => EclaAction::Nothing,
                            },
                            Packet::Beacon(pdp) => EclaAction::AddPeer(pdp),
                            _ => EclaAction::Nothing,
                        }
                    },
                }
            },
            _ => EclaAction::Nothing,
        }
    }

    /// Where bundles for the external agent `name` go: the address and layer
    /// of each module registered as `name` whose layer is known, each once.
    pub fn submission_targets(&self, name: &str) -> (r: Vec<(String, String)>)
        ensures
            forall|i: int, j: int| 0 <= i < j < r@.len() ==> #[trigger] r@[i].0@ != #[trigger] r@[j].0@,
            forall|i: int|
                0 <= i < r@.len() ==> self@.modules.contains_key(#[trigger] r@[i].0@)
                    && self@.modules[r@[i].0@].name == name@ && r@[i].1@ == self@.modules[r@[i].0@].layer
                    && self@.layers.contains_key(r@[i].1@),
            forall|a: Seq<char>|
                self@.modules.contains_key(a) && self@.modules[a].name == name@
                    && self@.layers.contains_key(self@.modules[a].layer) ==> exists|i: int|
                    0 <= i < r@.len() && #[trigger] r@[i].0@ == a,
    {
        proof {
            use_type_invariant(self);
        }
        let target = name.to_owned();
        let mut out: Vec<(String, String)> = Vec::new();
        let mut i: usize = 0;
        while i < self.modules.len()
            invariant
                0 <= i <= self.modules@.len(),
                target@ == name@,
                keys_unique(self.modules@),
                keys_unique(self.layers@),
                forall|a: int, b: int| 0 <= a < b < out@.len() ==> #[trigger] out@[a].0@ != #[trigger] out@[b].0@,
                forall|k: int| 0 <= k < out@.len() ==> exists|j: int| 0 <= j < i && #[trigger] out@[k].0@ == self.modules@[j].0@,
                forall|k: int|
                    0 <= k < out@.len() ==> table_map(self.modules@).contains_key(#[trigger] out@[k].0@)
                        && table_map(self.modules@)[out@[k].0@].name == name@ && out@[k].1@ == table_map(self.modules@)[out@[k].0@].layer
                        && table_map(self.layers@).contains_key(out@[k].1@),
                forall|j: int|
                    0 <= j < i && self.modules@[j].1.name@ == name@ && table_map(self.layers@).contains_key(self.modules@[j].1.layer@)
                    ==> exists|k: int| 0 <= k < out@.len() && #[trigger] out@[k].0@ == self.modules@[j].0@,
            decreases self.modules@.len() - i,
        {
            let ghost before = out@;
            if self.modules[i].1.name == target {
                match table_find(&self.layers, self.modules[i].1.layer.as_str()) {
                    Some(_) => {
                        proof {
                            lemma_table_dom(self.layers@, self.modules@[i as int].1.layer@);
                            lemma_table_value(self.modules@, i as int);
                        }
                        out.push((self.modules[i].0.clone(), self.modules[i].1.layer.clone()));
                        proof {
                            assert forall|a: int, b: int| 0 <= a < b < out@.len() implies #[trigger] out@[a].0@ != #[trigger] out@[b].0@ by {
                                if b == out@.len() - 1 {
                                    assert(out@[a] == before[a]);
                                    let j = choose|j: int| 0 <= j < i && #[trigger] before[a].0@ == self.modules@[j].0@;
                                } else {
                                    assert(out@[a] == before[a]);
                                    assert(out@[b] == before[b]);
                                }
                            }
                            assert forall|k: int| 0 <= k < out@.len() implies exists|j: int| 0 <= j < i + 1 && #[trigger] out@[k].0@ == self.modules@[j].0@ by {
                                if k < before.len() {
                                    assert(out@[k] == before[k]);
                                    let j = choose|j: int| 0 <= j < i && #[trigger] before[k].0@ == self.modules@[j].0@;
                                    assert(out@[k].0@ == self.modules@[j].0@);
                                } else {
                                    assert(out@[k].0@ == self.modules@[i as int].0@);
                                }
                            }
                            assert forall|j: int|
                                0 <= j < i + 1 && self.modules@[j].1.name@ == name@ && table_map(self.layers@).contains_key(self.modules@[j].1.layer@)
                                implies exists|k: int| 0 <= k < out@.len() && #[trigger] out@[k].0@ == self.modules@[j].0@ by {
                                if j < i {
                                    let k = choose|k: int| 0 <= k < before.len() && #[trigger] before[k].0@ == self.modules@[j].0@;
                                    assert(out@[k] == before[k]);
                                } else {
                                    assert(out@[out@.len() - 1].0@ == self.modules@[j].0@);
                                }
                            }
                        }
                    },
                    None => {
                        proof {
                            assert forall|k: int| 0 <= k < out@.len() implies exists|j: int| 0 <= j < i + 1 && #[trigger] out@[k].0@ == self.modules@[j].0@ by {
                                let j = choose|j: int| 0 <= j < i && #[trigger] out@[k].0@ == self.modules@[j].0@;
                            }
                        }
                    },
                }
            } else {
                proof {
                    assert forall|k: int| 0 <= k < out@.len() implies exists|j: int| 0 <= j < i + 1 && #[trigger] out@[k].0@ == self.modules@[j].0@ by {
                        let j = choose|j: int| 0 <= j < i && #[trigger] out@[k].0@ == self.modules@[j].0@;
                    }
                }
            }
            i = i + 1;
        }
        proof {
            assert forall|a: Seq<char>|
                table_map(self.modules@).contains_key(a) && table_map(self.modules@)[a].name == name@
                    && table_map(self.layers@).contains_key(table_map(self.modules@)[a].layer) implies exists|k: int|
                    0 <= k < out@.len() && #[trigger] out@[k].0@ == a by {
                lemma_table_dom(self.modules@, a);
                let j = choose|j: int| 0 <= j < self.modules@.len() && #[trigger] self.modules@[j].0@ == a;
                lemma_table_value(self.modules@, j);
            }
        }
        out
    }

    /// A module connected from `from` through the layer `layer_name`: it is
    /// recorded as waiting for its name, replacing any module at that address.
    pub fn handle_connect(&mut self, layer_name: &str, from: &str)
        ensures
            final(self)@.modules == old(self)@.modules.insert(from@, fresh_module(layer_name@)),
            final(self)@.layers == old(self)@.layers,
    {
        proof {
            use_type_invariant(&*self);
            reveal_strlit("");
        }
        let module = Module {
            state: ModuleState::WaitingForIdent,
            name: "".to_owned(),
            layer: layer_name.to_owned(),
            enable_beacon: true,
        };
        let entry = (from.to_owned(), module);
        assert(entry.1.name@ =~= Seq::<char>::empty());
        assert(entry.1@ == fresh_module(layer_name@));
        let mut modules = Vec::new();
        std::mem::swap(&mut modules, &mut self.modules);
        match table_find(&modules, from) {
            Some(i) => {
                proof {
                    lemma_table_update(modules@, i as int, entry);
                }
                modules.set(i, entry);
            },
            None => {
                proof {
                    lemma_table_push(modules@, entry);
                }
                modules.push(entry);
            },
        }
        self.modules = modules;
    }

    /// The module at `addr` disconnected: it is forgotten, and the name it
    /// registered, whose agent the node drops, is returned.
    pub fn handle_disconnect(&mut self, addr: &str) -> (r: String)
        requires
            old(self)@.modules.contains_key(addr@),
        ensures
            r@ == old(self)@.modules[addr@].name,
            final(self)@.modules == old(self)@.modules.remove(addr@),
            final(self)@.layers == old(self)@.layers,
    {
        proof {
            use_type_invariant(&*self);
        }
        let mut modules = Vec::new();
        std::mem::swap(&mut modules, &mut self.modules);
        match table_find(&modules, addr) {
            Some(i) => {
                proof {
                    lemma_table_value(modules@, i as int);
                    lemma_table_remove(modules@, i as int);
                }
                let (_, module) = modules.remove(i);
                self.modules = modules;
                module.name
            },
            None => {
                self.modules = modules;
                assert(false);
                String::new()
            },
        }
    }
}

/// The packets that carry `ready` to `dest`: one per bundle, in order,
/// with the source left for the module to fill in.
pub fn forward_packets(dest: &str, ready: &Vec<Vec<u8>>) -> (r: Vec<ForwardDataPacket>)
    ensures
        r@.len() == ready@.len(),
        forall|i: int|
            0 <= i < r@.len() ==> #[trigger] r@[i].dst@ == dest@ && r@[i].src@ == Seq::<char>::empty()
                && r@[i].data@ == ready@[i]@,
{
    proof {
        reveal_strlit("");
    }
    let mut out: Vec<ForwardDataPacket> = Vec::new();
    let mut i: usize = 0;
    while i < ready.len()
        invariant
            0 <= i <= ready@.len(),
            out@.len() == i,
            ""@ =~= Seq::<char>::empty(),
            forall|j: int|
                0 <= j < i ==> #[trigger] out@[j].dst@ == dest@ && out@[j].src@ == Seq::<char>::empty()
                    && out@[j].data@ == ready@[j]@,
        decreases ready@.len() - i,
    {
        let data = vstd::slice::slice_to_vec(ready[i].as_slice());
        out.push(ForwardDataPacket { src: "".to_owned(), dst: dest.to_owned(), data });
        i = i + 1;
    }
    out
}

} // verus!
