//! The capability marker: which GUID an overlay type answers to.
use vstd::prelude::*;

use crate::guid::Guid;

verus! {

/// An overlay type: the safe face of the firmware interface named by one GUID.
///
/// A value of the type is a view onto `size()` bytes of firmware memory that
/// were checked by the acquisition step before the view was made.
pub trait Protocol<'m>: Sized {
    /// The GUID this type claims.
    spec fn spec_guid() -> Seq<u8>;

    /// The name under which this type registers in a namespace.
    spec fn spec_name() -> Seq<char>;

    /// The byte length of the interface structure.
    spec fn spec_size() -> nat;

    /// The alignment the interface structure needs.
    spec fn spec_align() -> nat;

    /// The firmware bytes this view reads.
    spec fn raw(&self) -> Seq<u8>;

    fn guid() -> (g: Guid)
        ensures
            g@ == Self::spec_guid(),
    ;

    fn name() -> (r: &'static str)
        ensures
            r@ == Self::spec_name(),
    ;

    fn size() -> (n: usize)
        ensures
            n == Self::spec_size(),
            n > 0,
    ;

    fn align() -> (n: usize)
        ensures
            n == Self::spec_align(),
            n > 0,
    ;

    /// Makes the view over bytes already checked to have the layout's length.
    fn overlay(raw: &'m [u8]) -> (r: Self)
        requires
            raw@.len() == Self::spec_size(),
        ensures
            r.raw() == raw@,
    ;
}

/// The GUID of overlay type `T`: a total, constant mapping with no failure path.
pub fn capability_of<'m, T: Protocol<'m>>() -> (g: Guid)
    ensures
        g@ == T::spec_guid(),
{
    T::guid()
}

/// Asking for the capability of a type twice gives the same GUID.
pub proof fn lemma_capability_stable<'m, T: Protocol<'m>>(first: Guid, second: Guid)
    requires
        first@ == T::spec_guid(),
        second@ == T::spec_guid(),
    ensures
        first == second,
{
    Guid::lemma_view_injective(first, second);
}

/// Why a registration was refused.
#[derive(Clone, Copy, Debug, PartialEq, Eq, Structural)]
pub enum RegistrationError {
    /// Another overlay type already claims the GUID.
    GuidAlreadyClaimed,
    /// The overlay type is already bound to another GUID.
    TypeAlreadyBound,
}

/// Registrations as (type name, GUID bytes) pairs.
pub type Bindings = Seq<(Seq<char>, Seq<u8>)>;

/// No two registrations share a type name, and no two share a GUID.
pub open spec fn bindings_unique(e: Bindings) -> bool {
    forall|i: int, j: int|
        #![trigger e[i], e[j]]
        0 <= i < e.len() && 0 <= j < e.len() && i != j ==> e[i].0 != e[j].0 && e[i].1 != e[j].1
}

/// Some other type already claims `guid`.
pub open spec fn guid_claimed_by_other(e: Bindings, name: Seq<char>, guid: Seq<u8>) -> bool {
    exists|i: int| #![trigger e[i]] 0 <= i < e.len() && e[i].1 == guid && e[i].0 != name
}

/// The type `name` is already bound to a GUID other than `guid`.
pub open spec fn name_bound_elsewhere(e: Bindings, name: Seq<char>, guid: Seq<u8>) -> bool {
    exists|i: int| #![trigger e[i]] 0 <= i < e.len() && e[i].0 == name && e[i].1 != guid
}

/// The pair is registered already.
pub open spec fn binding_present(e: Bindings, name: Seq<char>, guid: Seq<u8>) -> bool {
    exists|i: int| 0 <= i < e.len() && #[trigger] e[i] == (name, guid)
}

struct Binding {
    name: String,
    guid: Guid,
}

/// A lookup namespace: the table from overlay types to the GUIDs they claim,
/// built before any lookup, refusing any registration that would let one GUID
/// stand for two layouts or one type for two GUIDs.
pub struct Namespace {
    bindings: Vec<Binding>,
}

impl Namespace {
    /// The registrations, in the order they were made.
    pub closed spec fn entries(&self) -> Bindings {
        self.bindings@.map_values(|b: Binding| (b.name@, b.guid@))
    }

    pub open spec fn wf(&self) -> bool {
        bindings_unique(self.entries())
    }

    /// An empty namespace.
    pub fn new() -> (ns: Namespace)
        ensures
            ns.wf(),
            ns.entries() == Seq::<(Seq<char>, Seq<u8>)>::empty(),
    {
        let ns = Namespace { bindings: Vec::new() };
        assert(ns.entries() =~= Seq::<(Seq<char>, Seq<u8>)>::empty());
        ns
    }

    /// The number of registrations.
    pub fn len(&self) -> (n: usize)
        ensures
            n == self.entries().len(),
    {
        self.bindings.len()
    }

    /// Binds the type called `name` to `guid`.
    ///
    /// A GUID that another type claims is refused first, then a type already
    /// bound elsewhere; registering a pair that is present already changes
    /// nothing.
    pub fn register(&mut self, name: &str, guid: Guid) -> (r: Result<(), RegistrationError>)
        requires
            old(self).wf(),
        ensures
            final(self).wf(),
            guid_claimed_by_other(old(self).entries(), name@, guid@) ==> r == Err::<(), RegistrationError>(
                RegistrationError::GuidAlreadyClaimed,
            ),
            !guid_claimed_by_other(old(self).entries(), name@, guid@) && name_bound_elsewhere(
                old(self).entries(),
                name@,
                guid@,
            ) ==> r == Err::<(), RegistrationError>(RegistrationError::TypeAlreadyBound),
            r is Err || binding_present(old(self).entries(), name@, guid@) ==> final(self).entries()
                == old(self).entries(),
            !guid_claimed_by_other(old(self).entries(), name@, guid@) && !name_bound_elsewhere(
                old(self).entries(),
                name@,
                guid@,
            ) ==> r is Ok,
            r is Ok && !binding_present(old(self).entries(), name@, guid@) ==> final(self).entries()
                == old(self).entries().push((name@, guid@)),
    {
        let owned = name.to_owned();
        let ghost e = self.entries();
        let mut guid_clash = false;
        let mut name_clash = false;
        let mut present = false;
        let mut i: usize = 0;
        while i < self.bindings.len()
            invariant
                e == self.entries(),
                e.len() == self.bindings@.len(),
                i <= e.len(),
                owned@ == name@,
                guid_clash == exists|j: int| #![trigger e[j]] 0 <= j < i && e[j].1 == guid@ && e[j].0 != name@,
                name_clash == exists|j: int| #![trigger e[j]] 0 <= j < i && e[j].0 == name@ && e[j].1 != guid@,
                present == exists|j: int| 0 <= j < i && #[trigger] e[j] == (name@, guid@),
            decreases self.bindings@.len() - i,
        {
            let b = &self.bindings[i];
            let same_name = b.name == owned;
            let same_guid = b.guid.same_as(&guid);
            assert(e[i as int] == (b.name@, b.guid@));
            if same_guid && !same_name {
                guid_clash = true;
            }
            if same_name && !same_guid {
                name_clash = true;
            }
            if same_name && same_guid {
                present = true;
            }
            i = i + 1;
        }
        if guid_clash {
            return Err(RegistrationError::GuidAlreadyClaimed);
        }
        if name_clash {
            return Err(RegistrationError::TypeAlreadyBound);
        }
        if !present {
            self.bindings.push(Binding { name: owned, guid });
            assert(self.entries() =~= e.push((name@, guid@)));
            assert forall|a: int, b: int|
                #![trigger self.entries()[a], self.entries()[b]]
                0 <= a < self.entries().len() && 0 <= b < self.entries().len() && a != b implies
                self.entries()[a].0 != self.entries()[b].0 && self.entries()[a].1 != self.entries()[b].1
            by {
                if a < e.len() && b < e.len() {
                    assert(e[a] == self.entries()[a] && e[b] == self.entries()[b]);
                } else if a < e.len() {
                    assert(e[a] == self.entries()[a]);
                } else {
                    assert(e[b] == self.entries()[b]);
                }
            }
        }
        Ok(())
    }

    /// Registers overlay type `T` under its name and GUID.
    pub fn register_protocol<'m, T: Protocol<'m>>(&mut self) -> (r: Result<(), RegistrationError>)
        requires
            old(self).wf(),
        ensures
            final(self).wf(),
            guid_claimed_by_other(old(self).entries(), T::spec_name(), T::spec_guid()) ==> r
                == Err::<(), RegistrationError>(RegistrationError::GuidAlreadyClaimed),
            !guid_claimed_by_other(old(self).entries(), T::spec_name(), T::spec_guid())
                && name_bound_elsewhere(old(self).entries(), T::spec_name(), T::spec_guid()) ==> r
                == Err::<(), RegistrationError>(RegistrationError::TypeAlreadyBound),
            r is Err || binding_present(old(self).entries(), T::spec_name(), T::spec_guid())
                ==> final(self).entries() == old(self).entries(),
            !guid_claimed_by_other(old(self).entries(), T::spec_name(), T::spec_guid())
                && !name_bound_elsewhere(old(self).entries(), T::spec_name(), T::spec_guid()) ==> r is Ok,
            r is Ok && !binding_present(old(self).entries(), T::spec_name(), T::spec_guid())
                ==> final(self).entries() == old(self).entries().push((T::spec_name(), T::spec_guid())),
    {
        self.register(T::name(), T::guid())
    }

    /// Whether some type in this namespace claims `guid`.
    pub fn claims(&self, guid: &Guid) -> (r: bool)
        ensures
            r == exists|i: int| 0 <= i < self.entries().len() && #[trigger] self.entries()[i].1 == guid@,
    {
        let mut i: usize = 0;
        while i < self.bindings.len()
            invariant
                i <= self.bindings@.len(),
                self.entries().len() == self.bindings@.len(),
                forall|j: int| 0 <= j < i ==> #[trigger] self.entries()[j].1 != guid@,
            decreases self.bindings@.len() - i,
        {
            assert(self.entries()[i as int].1 == self.bindings@[i as int].guid@);
            if self.bindings[i].guid.same_as(guid) {
                return true;
            }
            i = i + 1;
        }
        false
    }
}

/// In a namespace that registration built, no two registered types share a
/// GUID.
pub proof fn lemma_guids_distinct(ns: Namespace, i: int, j: int)
    requires
        ns.wf(),
        0 <= i < ns.entries().len(),
        0 <= j < ns.entries().len(),
        i != j,
    ensures
        ns.entries()[i].1 != ns.entries()[j].1,
{
    assert(ns.entries()[i] == ns.entries()[i] && ns.entries()[j] == ns.entries()[j]);
}

} // verus!
