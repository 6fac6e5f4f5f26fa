//! Dispatch tables: what one interface of one object looks like to a
//! caller, how the tables of an object are built from the interfaces that
//! its class declares, and how an identifier is resolved against them.

use vstd::prelude::*;
use crate::guiddef::{is_equal_guid, IID};
use crate::iunknown::{iid_iunknown, spec_iid_iunknown};
use crate::winerror::{E_NOINTERFACE, HRESULT, S_OK};
use crate::ComInterface;

verus! {

/// Where a call through one slot of a dispatch table ends up.
#[derive(Clone, Copy, Debug, PartialEq, Eq, Structural)]
pub enum Slot {
    /// Slot 0: resolve an identifier on the object that owns the table.
    QueryInterface,
    /// Slot 1: take one more reference to the object that owns the table.
    AddRef,
    /// Slot 2: give one reference back.
    Release,
    /// Slot `3 + k`: the interface's own operation number `k`, counted in
    /// declaration order, which the concrete object carries out.
    Method(usize),
}

/// The static description of one interface: its identifier, and the number
/// of operations that it adds to the three every interface begins with.
#[derive(Clone, Copy, Debug)]
pub struct InterfaceDescriptor {
    pub iid: IID,
    pub method_count: usize,
}

impl InterfaceDescriptor {
    /// The description of the interface `I`.
    pub fn of<I: ComInterface>() -> (desc: InterfaceDescriptor)
        ensures
            desc.iid == I::IID,
            desc.method_count == I::METHOD_COUNT,
    {
        InterfaceDescriptor { iid: I::IID, method_count: I::METHOD_COUNT }
    }
}

/// One dispatch table of one object.
#[derive(Debug)]
pub struct VTable {
    iid: IID,
    offset: usize,
    slots: Vec<Slot>,
}

/// What a dispatch table holds.
pub struct VTableView {
    /// The interface that the table was built for.
    pub iid: IID,
    /// The table's position among the tables of its object.
    pub offset: nat,
    /// The operations, in slot order.
    pub slots: Seq<Slot>,
}

/// The three slots that open every dispatch table.
pub open spec fn fixed_prefix() -> Seq<Slot> {
    seq![Slot::QueryInterface, Slot::AddRef, Slot::Release]
}

/// The dispatch table of the interface `desc` for an object that declares
/// it at position `offset`: the fixed prefix, then the interface's own
/// operations in declaration order.
pub open spec fn table_of(desc: InterfaceDescriptor, offset: nat) -> VTableView {
    VTableView {
        iid: desc.iid,
        offset: offset,
        slots: fixed_prefix() + Seq::new(desc.method_count as nat, |k: int| Slot::Method(k as usize)),
    }
}

/// The dispatch tables of an object whose class declares `interfaces`, in
/// that order: one table for each, at the position of its declaration.
pub open spec fn synthesized(interfaces: Seq<InterfaceDescriptor>) -> Seq<VTableView> {
    Seq::new(interfaces.len(), |i: int| table_of(interfaces[i], i as nat))
}

impl VTableView {
    /// The table begins with the three fixed operations and goes on with
    /// the interface's own, numbered from zero.
    pub open spec fn wf(self) -> bool {
        &&& self.slots.len() >= 3
        &&& self.slots[0] == Slot::QueryInterface
        &&& self.slots[1] == Slot::AddRef
        &&& self.slots[2] == Slot::Release
        &&& forall|k: int| 3 <= k < self.slots.len() ==> self.slots[k] == Slot::Method((k - 3) as usize)
    }
}

impl View for VTable {
    type V = VTableView;

    closed spec fn view(&self) -> VTableView {
        VTableView { iid: self.iid, offset: self.offset as nat, slots: self.slots@ }
    }
}

impl VTable {
    /// Builds the dispatch table of `desc` for the position `offset`.
    pub fn new(desc: &InterfaceDescriptor, offset: usize) -> (table: VTable)
        ensures
            table@ == table_of(*desc, offset as nat),
            table@.wf(),
    {
        let mut slots: Vec<Slot> = Vec::new();
        slots.push(Slot::QueryInterface);
        slots.push(Slot::AddRef);
        slots.push(Slot::Release);
        let mut k: usize = 0;
        while k < desc.method_count
            invariant
                k <= desc.method_count,
                slots@ == fixed_prefix() + Seq::new(k as nat, |j: int| Slot::Method(j as usize)),
            decreases desc.method_count - k,
        {
            slots.push(Slot::Method(k));
            k = k + 1;
        }
        VTable { iid: desc.iid, offset, slots }
    }

    /// The interface that the table was built for.
    pub fn iid(&self) -> (id: IID)
        ensures
            id == self@.iid,
    {
        self.iid
    }

    /// The table's position among the tables of its object.
    pub fn offset(&self) -> (offset: usize)
        ensures
            offset == self@.offset,
    {
        self.offset
    }

    /// The number of slots, the fixed prefix included.
    pub fn slot_count(&self) -> (n: usize)
        ensures
            n == self@.slots.len(),
    {
        self.slots.len()
    }

    /// The operation in slot `index`, if the table has such a slot.
    pub fn slot(&self, index: usize) -> (slot: Option<Slot>)
        ensures
            slot == (if index < self@.slots.len() {
                Some(self@.slots[index as int])
            } else {
                None
            }),
    {
        if index < self.slots.len() {
            Some(self.slots[index])
        } else {
            None
        }
    }
}

/// The dispatch tables of one object, in the order in which its class
/// declares its interfaces. The position of a table in the list is what a
/// caller holds as its pointer to that interface.
#[derive(Debug)]
pub struct VPointerList {
    tables: Vec<VTable>,
}

/// Each table knows its own position in the list and has the shape of a
/// dispatch table.
pub open spec fn well_formed(tables: Seq<VTableView>) -> bool {
    forall|i: int| 0 <= i < tables.len() ==> (#[trigger] tables[i]).offset == i && tables[i].wf()
}

/// The table at position `i` was built for the interface `riid`.
pub open spec fn declared_at(tables: Seq<VTableView>, riid: IID, i: int) -> bool {
    0 <= i < tables.len() && tables[i].iid == riid
}

/// Some table of the list was built for the interface `riid`.
pub open spec fn declares(tables: Seq<VTableView>, riid: IID) -> bool {
    exists|i: int| declared_at(tables, riid, i)
}

/// The position `i` is the first one whose table was built for `riid`.
pub open spec fn first_declared_at(tables: Seq<VTableView>, riid: IID, i: int) -> bool {
    declared_at(tables, riid, i) && forall|j: int| 0 <= j < i ==> !declared_at(tables, riid, j)
}

/// The table that answers a query for `riid`, by its position. The base
/// interface is answered by the first table, whatever that table was built
/// for; any other identifier by the first table that was built for exactly
/// that identifier; and where there is no such table, by none.
pub open spec fn resolve(tables: Seq<VTableView>, riid: IID) -> Option<int> {
    if tables.len() > 0 && riid == spec_iid_iunknown() {
        Some(0)
    } else if declares(tables, riid) {
        Some(choose|i: int| first_declared_at(tables, riid, i))
    } else {
        None
    }
}

/// Among the positions whose table was built for `riid`, if there are any,
/// one comes first.
proof fn lemma_first_declared_exists(tables: Seq<VTableView>, riid: IID, i: int)
    requires
        declared_at(tables, riid, i),
    ensures
        exists|f: int| first_declared_at(tables, riid, f),
    decreases i,
{
    if exists|j: int| 0 <= j < i && declared_at(tables, riid, j) {
        let j = choose|j: int| 0 <= j < i && declared_at(tables, riid, j);
        lemma_first_declared_exists(tables, riid, j);
    } else {
        assert(first_declared_at(tables, riid, i));
    }
}

/// What a query resolves to. If it resolves to a position, that position is
/// one of the list, and its table is either the first table answering for
/// the base interface, or the first of the tables that were built for
/// `riid`. If it resolves to nothing, no table was built for `riid`, and
/// `riid` is not the base interface unless the list is empty.
pub proof fn lemma_resolve(tables: Seq<VTableView>, riid: IID)
    ensures
        match resolve(tables, riid) {
            Some(i) => {
                &&& 0 <= i < tables.len()
                &&& riid == spec_iid_iunknown() ==> i == 0
                &&& riid != spec_iid_iunknown() ==> first_declared_at(tables, riid, i)
            },
            None => {
                &&& !declares(tables, riid)
                &&& riid == spec_iid_iunknown() ==> tables.len() == 0
            },
        },
{
    if !(tables.len() > 0 && riid == spec_iid_iunknown()) && declares(tables, riid) {
        let i = choose|i: int| declared_at(tables, riid, i);
        lemma_first_declared_exists(tables, riid, i);
    }
}

/// Every identifier that a list declares resolves, wherever in the list it
/// was declared, and to a table that was built for it (or, for the base
/// interface, to the first table).
pub proof fn lemma_declared_resolves(tables: Seq<VTableView>, i: int)
    requires
        0 <= i < tables.len(),
    ensures
        resolve(tables, tables[i].iid) matches Some(r) && 0 <= r <= i && (tables[r].iid == tables[i].iid
            || (tables[i].iid == spec_iid_iunknown() && r == 0)),
{
    let riid = tables[i].iid;
    assert(declared_at(tables, riid, i));
    lemma_resolve(tables, riid);
    if riid != spec_iid_iunknown() {
        let r = resolve(tables, riid).unwrap();
        if i < r {
            assert(!declared_at(tables, riid, i));
        }
    }
}

/// Whether an identifier resolves does not depend on the order of the
/// declarations: two lists that declare the same identifiers answer the
/// same queries.
pub proof fn lemma_resolve_ignores_order(a: Seq<VTableView>, b: Seq<VTableView>, riid: IID)
    requires
        forall|id: IID| declares(a, id) <==> declares(b, id),
    ensures
        resolve(a, riid) is Some <==> resolve(b, riid) is Some,
{
    lemma_resolve(a, riid);
    lemma_resolve(b, riid);
    if a.len() > 0 {
        assert(declared_at(a, a[0].iid, 0));
        assert(declares(b, a[0].iid));
    }
    if b.len() > 0 {
        assert(declared_at(b, b[0].iid, 0));
        assert(declares(a, b[0].iid));
    }
}

/// The tables that are built from a list of interfaces are well formed,
/// and they declare exactly the identifiers of that list, each at the
/// position of its interface.
pub proof fn lemma_synthesized_declares(interfaces: Seq<InterfaceDescriptor>, riid: IID, i: int)
    ensures
        well_formed(synthesized(interfaces)),
        declared_at(synthesized(interfaces), riid, i) <==> 0 <= i < interfaces.len() && interfaces[i].iid
            == riid,
{
}

/// Which queries the objects of a class answer: those for an interface
/// that the class declares, and, if it declares any, those for the base
/// interface. No other query is answered.
pub proof fn lemma_answered_queries(interfaces: Seq<InterfaceDescriptor>, riid: IID)
    ensures
        resolve(synthesized(interfaces), riid) is Some <==> (exists|i: int|
            0 <= i < interfaces.len() && #[trigger] interfaces[i].iid == riid) || (riid
            == spec_iid_iunknown() && interfaces.len() > 0),
{
    let tables = synthesized(interfaces);
    lemma_resolve(tables, riid);
    if exists|i: int| 0 <= i < interfaces.len() && #[trigger] interfaces[i].iid == riid {
        let i = choose|i: int| 0 <= i < interfaces.len() && #[trigger] interfaces[i].iid == riid;
        assert(declared_at(tables, riid, i));
    }
    if declares(tables, riid) {
        let i = choose|i: int| declared_at(tables, riid, i);
        assert(interfaces[i].iid == riid);
    }
}

/// Every interface that a class declares can be queried for on its
/// objects, wherever in the list the class declares it: the query resolves
/// to a table that was built for that interface (for the base interface,
/// to the first table).
pub proof fn lemma_declared_interface_resolves(interfaces: Seq<InterfaceDescriptor>, i: int)
    requires
        0 <= i < interfaces.len(),
    ensures
        resolve(synthesized(interfaces), interfaces[i].iid) matches Some(r) && 0 <= r <= i && (
        interfaces[r].iid == interfaces[i].iid || (interfaces[i].iid == spec_iid_iunknown() && r == 0)),
{
    lemma_declared_resolves(synthesized(interfaces), i);
}

/// The order in which a class declares its interfaces does not decide
/// which queries its objects answer: declared in any other order, the same
/// interfaces answer the same queries.
pub proof fn lemma_resolve_of_permutation(
    a: Seq<InterfaceDescriptor>,
    b: Seq<InterfaceDescriptor>,
    riid: IID,
)
    requires
        a.to_multiset() == b.to_multiset(),
    ensures
        resolve(synthesized(a), riid) is Some <==> resolve(synthesized(b), riid) is Some,
{
    assert forall|id: IID| declares(synthesized(a), id) <==> declares(synthesized(b), id) by {
        lemma_declares_of_permutation(a, b, id);
        lemma_declares_of_permutation(b, a, id);
    }
    lemma_resolve_ignores_order(synthesized(a), synthesized(b), riid);
}

/// What one list of interfaces declares, every list with the same
/// interfaces declares.
proof fn lemma_declares_of_permutation(a: Seq<InterfaceDescriptor>, b: Seq<InterfaceDescriptor>, id: IID)
    requires
        a.to_multiset() == b.to_multiset(),
    ensures
        declares(synthesized(a), id) ==> declares(synthesized(b), id),
{
    if declares(synthesized(a), id) {
        let i = choose|i: int| declared_at(synthesized(a), id, i);
        a.to_multiset_ensures();
        b.to_multiset_ensures();
        assert(a.contains(a[i]));
        assert(b.to_multiset().count(a[i]) > 0);
        assert(b.contains(a[i]));
        let j = choose|j: int| 0 <= j < b.len() && b[j] == a[i];
        assert(declared_at(synthesized(b), id, j));
    }
}

impl View for VPointerList {
    type V = Seq<VTableView>;

    closed spec fn view(&self) -> Seq<VTableView> {
        self.tables@.map_values(|t: VTable| t@)
    }
}

impl VPointerList {
    #[verifier::type_invariant]
    pub open spec fn inv(&self) -> bool {
        well_formed(self@)
    }

    /// The number of tables.
    pub fn len(&self) -> (n: usize)
        ensures
            n == self@.len(),
    {
        self.tables.len()
    }

    /// The table at position `index`, if the list has one there. Such a
    /// table knows its position and has the shape of a dispatch table.
    pub fn get(&self, index: usize) -> (table: Option<&VTable>)
        ensures
            well_formed(self@),
            match table {
                Some(t) => index < self@.len() && t@ == self@[index as int],
                None => index >= self@.len(),
            },
    {
        proof {
            use_type_invariant(self);
        }
        if index < self.tables.len() {
            Some(&self.tables[index])
        } else {
            None
        }
    }

    /// Resolves the identifier `riid` against the list. If a table answers,
    /// its position is stored through `ppv` and the call succeeds. If none
    /// does, nothing is stored through `ppv` and the call fails with
    /// `E_NOINTERFACE`.
    pub fn query_interface(&self, riid: &IID, ppv: &mut Option<usize>) -> (hr: HRESULT)
        ensures
            match resolve(self@, *riid) {
                Some(i) => hr == S_OK && *final(ppv) == Some(i as usize) && 0 <= i < self@.len(),
                None => hr == E_NOINTERFACE && *final(ppv) == None::<usize>,
            },
    {
        let n = self.tables.len();
        if n > 0 && is_equal_guid(riid, &iid_iunknown()) {
            *ppv = Some(0);
            return S_OK;
        }
        let mut i: usize = 0;
        while i < n
            invariant
                i <= n,
                n == self@.len(),
                n == self.tables@.len(),
                !(n > 0 && *riid == spec_iid_iunknown()),
                forall|j: int| 0 <= j < i ==> !declared_at(self@, *riid, j),
            decreases n - i,
        {
            if is_equal_guid(riid, &self.tables[i].iid) {
                proof {
                    let found = i as int;
                    assert(first_declared_at(self@, *riid, found));
                    let chosen = choose|c: int| first_declared_at(self@, *riid, c);
                    if chosen < found {
                        assert(!declared_at(self@, *riid, chosen));
                    }
                    if found < chosen {
                        assert(!declared_at(self@, *riid, found));
                    }
                }
                *ppv = Some(i);
                return S_OK;
            }
            i = i + 1;
        }
        *ppv = None;
        E_NOINTERFACE
    }
}

/// Builds the dispatch tables of an object from the interfaces that its
/// class declares: one table for each interface, in the order of the
/// declarations, each with the three fixed operations in front and with
/// its own position in the list.
pub fn generate(base_interfaces: &[InterfaceDescriptor]) -> (list: VPointerList)
    ensures
        list@ == synthesized(base_interfaces@),
        well_formed(list@),
{
    let mut tables: Vec<VTable> = Vec::new();
    let mut offset_count: usize = 0;
    while offset_count < base_interfaces.len()
        invariant
            offset_count <= base_interfaces@.len(),
            tables@.len() == offset_count,
            forall|i: int|
                0 <= i < offset_count ==> (#[trigger] tables@[i])@ == table_of(base_interfaces@[i], i as nat),
        decreases base_interfaces@.len() - offset_count,
    {
        let table = VTable::new(&base_interfaces[offset_count], offset_count);
        tables.push(table);
        offset_count = offset_count + 1;
    }
    let list = VPointerList { tables };
    assert(list@ =~= synthesized(base_interfaces@));
    list
}

} // verus!
