//! The container that owns one object, its dispatch tables and the single
//! reference count that all of its interfaces share.

use vstd::prelude::*;
use crate::failed;
use crate::guiddef::IID;
use crate::iunknown::spec_iid_iunknown;
use crate::vtable::{declares, generate, lemma_resolve, resolve, synthesized, VPointerList, VTable, VTableView};
use crate::winerror::{E_NOINTERFACE, HRESULT, S_OK};
use crate::CoClass;

verus! {

/// The container of one object: the object itself, one dispatch table for
/// each interface that its class declares, and the count of the references
/// that callers hold to it, through whichever interface.
///
/// Every operation that changes the count takes the container by exclusive
/// reference, so no two of them can interleave: each is atomic to every
/// other holder. The container is destroyed by the release that brings the
/// count to zero, and by nothing else; what is left of it then holds
/// neither the object nor any table.
pub struct ComBox<T: CoClass> {
    vtable_list: Option<VPointerList>,
    ref_count: u32,
    value: Option<T>,
}

/// What a container holds.
pub struct ComBoxView<T> {
    /// The number of references that are outstanding.
    pub ref_count: nat,
    /// The dispatch tables, one for each interface that the object exposes.
    pub tables: Seq<VTableView>,
    /// The object, until the container is destroyed.
    pub value: Option<T>,
}

impl<T> ComBoxView<T> {
    /// A new container: nobody refers to it yet.
    pub open spec fn fresh(tables: Seq<VTableView>, value: T) -> Self {
        ComBoxView { ref_count: 0, tables: tables, value: Some(value) }
    }

    /// What is left of a container once its last reference is gone:
    /// neither the object nor any table.
    pub open spec fn destroyed() -> Self {
        ComBoxView { ref_count: 0, tables: Seq::empty(), value: None }
    }

    /// The container still holds its object.
    pub open spec fn is_alive(self) -> bool {
        self.value is Some
    }

    /// A reference can be given back: the container is alive and somebody
    /// refers to it.
    pub open spec fn can_release(self) -> bool {
        self.is_alive() && self.ref_count >= 1
    }

    /// The container after one more reference was taken.
    pub open spec fn add_ref(self) -> Self {
        ComBoxView { ref_count: self.ref_count + 1, ..self }
    }

    /// The container after one reference was given back: destroyed if that
    /// was the last one.
    pub open spec fn release(self) -> Self {
        if self.ref_count == 1 {
            Self::destroyed()
        } else {
            ComBoxView { ref_count: (self.ref_count - 1) as nat, ..self }
        }
    }

    /// The container after a query for `riid`: the caller holds one more
    /// reference if the query was answered, and nothing has changed if not.
    pub open spec fn query_interface(self, riid: IID) -> Self {
        if resolve(self.tables, riid) is Some {
            self.add_ref()
        } else {
            self
        }
    }

    /// A query for an identifier that the object declares, or for the base
    /// interface on an object with a table, is answered and takes exactly
    /// one reference. A query for any other identifier is not answered and
    /// changes nothing.
    pub proof fn lemma_query_interface(self, riid: IID)
        ensures
            declares(self.tables, riid) || (riid == spec_iid_iunknown() && self.tables.len() > 0) ==> {
                &&& resolve(self.tables, riid) is Some
                &&& self.query_interface(riid).ref_count == self.ref_count + 1
                &&& self.query_interface(riid).tables == self.tables
                &&& self.query_interface(riid).value == self.value
            },
            !declares(self.tables, riid) && !(riid == spec_iid_iunknown() && self.tables.len() > 0) ==> {
                &&& resolve(self.tables, riid) is None
                &&& self.query_interface(riid) == self
            },
    {
        lemma_resolve(self.tables, riid);
    }

    /// While a container is alive its dispatch tables stay as they were
    /// built, each in its place: no reference that is taken, no query, and
    /// no release but the last one changes them.
    pub proof fn lemma_tables_stay_in_place(self, riid: IID)
        ensures
            self.add_ref().tables == self.tables,
            self.query_interface(riid).tables == self.tables,
            self.ref_count != 1 ==> self.release().tables == self.tables,
    {
    }

    /// How a container comes to its first holder. The maker of a new
    /// container holds it by a reference of its own while it queries
    /// `riid` for the caller, and then gives its reference back. If the
    /// query is answered the container is left with exactly one reference,
    /// the caller's, however many tables it has; if not, it is destroyed.
    pub proof fn lemma_creation(tables: Seq<VTableView>, value: T, riid: IID)
        ensures
            resolve(tables, riid) is Some ==> Self::fresh(tables, value).add_ref().query_interface(
                riid,
            ).release() == (ComBoxView { ref_count: 1, tables: tables, value: Some(value) }),
            resolve(tables, riid) is None ==> Self::fresh(tables, value).add_ref().query_interface(
                riid,
            ).release() == Self::destroyed(),
    {
    }

    /// To take a reference and give it back leaves a container that
    /// somebody refers to exactly as it was.
    pub proof fn lemma_add_ref_release(self)
        requires
            self.ref_count >= 1,
        ensures
            self.add_ref().release() == self,
    {
    }

    /// To take a reference and give it back leaves the reference count as
    /// it was, whatever it was.
    pub proof fn lemma_add_ref_release_count(self)
        ensures
            self.add_ref().release().ref_count == self.ref_count,
    {
    }

    /// The count belongs to the container and not to any one of its
    /// interfaces. For a container with one reference and two pointers to
    /// it: a reference taken through the one and given back through the
    /// other leaves one reference and the container alive, and to give
    /// that one back, through either, destroys the container.
    pub proof fn lemma_one_count_for_all_interfaces(self)
        requires
            self.is_alive(),
            self.ref_count == 1,
        ensures
            self.add_ref().ref_count == 2,
            self.add_ref().release() == self,
            self.add_ref().release().can_release(),
            self.add_ref().release().release() == Self::destroyed(),
    {
    }

    /// The release that takes the count from one to zero destroys the
    /// container, and no other release does. From a destroyed container
    /// no reference can be given back again.
    pub proof fn lemma_release_destroys_once(self)
        requires
            self.can_release(),
        ensures
            self.ref_count == 1 ==> self.release() == Self::destroyed(),
            self.ref_count > 1 ==> self.release().is_alive() && self.release().ref_count == self.ref_count - 1,
            !self.release().is_alive() <==> self.release().ref_count == 0,
            !Self::destroyed().can_release(),
            self.release().ref_count == 0 ==> !self.release().can_release(),
    {
    }
}

impl<T: CoClass> View for ComBox<T> {
    type V = ComBoxView<T>;

    closed spec fn view(&self) -> ComBoxView<T> {
        ComBoxView {
            ref_count: self.ref_count as nat,
            tables: match self.vtable_list {
                Some(list) => list@,
                None => Seq::empty(),
            },
            value: self.value,
        }
    }
}

impl<T: CoClass> ComBox<T> {
    /// Puts `value` in a new container, with one dispatch table for each
    /// interface that its class declares. Nobody refers to the container
    /// yet.
    pub fn new(value: T) -> (combox: ComBox<T>)
        ensures
            combox@ == ComBoxView::fresh(synthesized(T::INTERFACES@), value),
    {
        ComBox { vtable_list: Some(generate(T::INTERFACES)), ref_count: 0, value: Some(value) }
    }

    /// Tells whether the container still holds its object.
    pub fn is_alive(&self) -> (alive: bool)
        ensures
            alive == self@.is_alive(),
    {
        self.value.is_some()
    }

    /// Tells whether a reference can be given back: the container is alive
    /// and somebody refers to it.
    pub fn can_release(&self) -> (can: bool)
        ensures
            can == self@.can_release(),
    {
        self.value.is_some() && self.ref_count >= 1
    }

    /// The dispatch table at position `index`, if the container has one
    /// there. A table stands at the position that it holds as its offset.
    pub fn vtable(&self, index: usize) -> (table: Option<&VTable>)
        ensures
            match table {
                Some(t) => index < self@.tables.len() && t@ == self@.tables[index as int] && t@.offset
                    == index && t@.wf(),
                None => index >= self@.tables.len(),
            },
    {
        match &self.vtable_list {
            Some(list) => list.get(index),
            None => None,
        }
    }

    /// The object in the container.
    pub fn deref(&self) -> (value: &T)
        requires
            self@.is_alive(),
        ensures
            Some(*value) == self@.value,
    {
        self.value.as_ref().unwrap()
    }

    /// The object in the container, to change it in place.
    pub fn deref_mut(&mut self) -> (value: &mut T)
        requires
            old(self)@.is_alive(),
        ensures
            Some(*value) == old(self)@.value,
            final(self)@ == (ComBoxView { value: Some(*final(value)), ..old(self)@ }),
    {
        self.value.as_mut().unwrap()
    }

    /// Gets the reference count of the container.
    pub fn get_ref_count(&self) -> (rc: u32)
        ensures
            rc == self@.ref_count,
    {
        self.ref_count
    }

    /// Increments the reference count of the container.
    ///
    /// Returns the reference count after the increment.
    pub fn combox_add_ref(&mut self) -> (rc: u32)
        requires
            old(self)@.is_alive(),
            old(self)@.ref_count < u32::MAX,
        ensures
            final(self)@ == old(self)@.add_ref(),
            rc == old(self)@.ref_count + 1,
    {
        self.ref_count = self.ref_count + 1;
        self.ref_count
    }

    /// Decrements the reference count. Destroys the object and its dispatch
    /// tables if the count reaches zero.
    ///
    /// Returns the reference count after the release. To release a
    /// container that nobody refers to is an error of the caller that
    /// cannot be recovered from; the precondition rules it out.
    pub fn combox_release(&mut self) -> (rc: u32)
        requires
            old(self)@.can_release(),
        ensures
            final(self)@ == old(self)@.release(),
            rc == old(self)@.ref_count - 1,
    {
        let rc = self.ref_count - 1;
        if rc == 0 {
            self.value = None;
            self.vtable_list = None;
        }
        self.ref_count = rc;
        rc
    }

    /// Resolves `riid` against the interfaces of the object. If one of its
    /// dispatch tables answers, the position of that table is stored
    /// through `out`, the caller gets one reference with it, and the call
    /// succeeds. If none does, nothing is stored through `out`, the
    /// reference count stays as it is, and the call fails with
    /// `E_NOINTERFACE`.
    pub fn combox_query_interface(&mut self, riid: &IID, out: &mut Option<usize>) -> (hr: HRESULT)
        requires
            old(self)@.is_alive(),
            resolve(old(self)@.tables, *riid) is Some ==> old(self)@.ref_count < u32::MAX,
        ensures
            final(self)@ == old(self)@.query_interface(*riid),
            match resolve(old(self)@.tables, *riid) {
                Some(i) => hr == S_OK && *final(out) == Some(i as usize) && 0 <= i < old(self)@.tables.len(),
                None => hr == E_NOINTERFACE && *final(out) == None::<usize>,
            },
    {
        let hr = match &self.vtable_list {
            Some(list) => list.query_interface(riid, out),
            None => {
                *out = None;
                E_NOINTERFACE
            },
        };
        if !failed(hr) {
            self.combox_add_ref();
        }
        hr
    }
}

} // verus!
