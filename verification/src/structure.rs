//! Atoms, snapshots and the store that holds the structure on display.

use vstd::prelude::*;

verus! {

/// One atom: an element label and a position.
///
/// Each coordinate is carried as the bit pattern of an IEEE-754 single-precision
/// number, so a position passes through the crate unchanged, bit for bit.
#[derive(Debug, PartialEq, Eq)]
pub struct Atom {
    pub element: String,
    pub x: u32,
    pub y: u32,
    pub z: u32,
}

/// What an [`Atom`] stands for in contracts.
pub struct AtomView {
    pub element: Seq<char>,
    pub x: u32,
    pub y: u32,
    pub z: u32,
}

impl View for Atom {
    type V = AtomView;

    open spec fn view(&self) -> AtomView {
        AtomView { element: self.element@, x: self.x, y: self.y, z: self.z }
    }
}

impl DeepView for Atom {
    type V = AtomView;

    open spec fn deep_view(&self) -> AtomView {
        self@
    }
}

impl Clone for Atom {
    fn clone(&self) -> (copy: Self)
        ensures
            copy == *self,
    {
        Atom { element: self.element.clone(), x: self.x, y: self.y, z: self.z }
    }
}

impl Atom {
    /// Builds an atom from a label and three coordinate bit patterns.
    pub fn new(element: &str, x: u32, y: u32, z: u32) -> (atom: Atom)
        ensures
            atom@ == (AtomView { element: element@, x, y, z }),
    {
        Atom { element: element.to_owned(), x, y, z }
    }
}

/// Copies a list of atoms, element by element.
pub fn clone_atoms(atoms: &Vec<Atom>) -> (copy: Vec<Atom>)
    ensures
        copy@ == atoms@,
        copy.deep_view() == atoms.deep_view(),
{
    let mut copy: Vec<Atom> = Vec::new();
    let mut i: usize = 0;
    while i < atoms.len()
        invariant
            i <= atoms.len(),
            copy@ == atoms@.take(i as int),
        decreases atoms.len() - i,
    {
        copy.push(atoms[i].clone());
        i += 1;
    }
    assert(atoms@.take(atoms.len() as int) == atoms@);
    copy
}

/// The structure on display, with the mark that it was replaced since the scene
/// was last rebuilt.
#[derive(Debug, PartialEq, Eq)]
pub struct Crystal {
    pub atoms: Vec<Atom>,
    pub changed: bool,
}

/// What a [`Crystal`] stands for in contracts.
pub struct CrystalView {
    pub atoms: Seq<AtomView>,
    pub changed: bool,
}

impl View for Crystal {
    type V = CrystalView;

    open spec fn view(&self) -> CrystalView {
        CrystalView { atoms: self.atoms.deep_view(), changed: self.changed }
    }
}

impl Clone for Crystal {
    fn clone(&self) -> (copy: Self)
        ensures
            copy@ == self@,
    {
        Crystal { atoms: clone_atoms(&self.atoms), changed: self.changed }
    }
}

/// One complete snapshot that replaces the structure on display.
#[derive(Debug, PartialEq, Eq)]
pub struct UpdateStructure {
    pub atoms: Vec<Atom>,
}

impl View for UpdateStructure {
    type V = Seq<AtomView>;

    open spec fn view(&self) -> Seq<AtomView> {
        self.atoms.deep_view()
    }
}

impl DeepView for UpdateStructure {
    type V = Seq<AtomView>;

    open spec fn deep_view(&self) -> Seq<AtomView> {
        self@
    }
}

impl Clone for UpdateStructure {
    fn clone(&self) -> (copy: Self)
        ensures
            copy@ == self@,
    {
        UpdateStructure { atoms: clone_atoms(&self.atoms) }
    }
}

/// The store after a run of snapshots: the last one wins, and none leaves the
/// store as it was.
pub open spec fn merged(store: CrystalView, events: Seq<Seq<AtomView>>) -> CrystalView {
    if events.len() == 0 {
        store
    } else {
        CrystalView { atoms: events.last(), changed: true }
    }
}

impl Crystal {
    /// A store that holds `atoms` and counts as changed, so that the first
    /// rebuild of the scene shows it.
    pub fn new(atoms: Vec<Atom>) -> (crystal: Crystal)
        ensures
            crystal@ == (CrystalView { atoms: atoms.deep_view(), changed: true }),
    {
        Crystal { atoms, changed: true }
    }

    /// Replaces the whole atom list and marks the store as changed.
    pub fn replace(&mut self, atoms: Vec<Atom>)
        ensures
            final(self)@ == merged(old(self)@, seq![atoms.deep_view()]),
            final(self).atoms == atoms,
    {
        self.atoms = atoms;
        self.changed = true;
    }
}

/// Applies the snapshots of one tick in arrival order. Each one replaces the
/// atom list as a whole; after several, only the last is left.
pub fn update_crystal_system(crystal: &mut Crystal, events: &Vec<UpdateStructure>)
    ensures
        final(crystal)@ == merged(old(crystal)@, events.deep_view()),
{
    let mut i: usize = 0;
    while i < events.len()
        invariant
            i <= events.len(),
            crystal@ == merged(old(crystal)@, events.deep_view().take(i as int)),
        decreases events.len() - i,
    {
        crystal.atoms = clone_atoms(&events[i].atoms);
        crystal.changed = true;
        i += 1;
    }
    assert(events.deep_view().take(events.len() as int) == events.deep_view());
}

/// The structure shown before any snapshot has arrived: one water molecule.
pub open spec fn default_structure() -> Seq<AtomView> {
    seq![
        AtomView { element: seq!['O'], x: 0, y: 0, z: 0 },
        AtomView { element: seq!['H'], x: 0x3f41_cac1, y: 0x3f16_45a2, z: 0 },
        AtomView { element: seq!['H'], x: 0xbf41_cac1, y: 0x3f16_45a2, z: 0 },
    ]
}

/// Builds the store that a session starts with.
pub fn load_crystal() -> (crystal: Crystal)
    ensures
        crystal@ == (CrystalView { atoms: default_structure(), changed: true }),
{
    proof {
        reveal_strlit("O");
        reveal_strlit("H");
    }
    let mut atoms: Vec<Atom> = Vec::new();
    atoms.push(Atom::new("O", 0, 0, 0));
    atoms.push(Atom::new("H", 0x3f41_cac1, 0x3f16_45a2, 0));
    atoms.push(Atom::new("H", 0xbf41_cac1, 0x3f16_45a2, 0));
    assert(atoms.deep_view() =~= default_structure()) by {
        assert("O"@ =~= seq!['O']);
        assert("H"@ =~= seq!['H']);
    }
    Crystal::new(atoms)
}

/// Snapshots drained over two polls leave the store as one poll of all of
/// them would: only the order of arrival counts, not the tick that saw them.
pub proof fn lemma_merge_in_batches(
    store: CrystalView,
    first: Seq<Seq<AtomView>>,
    second: Seq<Seq<AtomView>>,
)
    ensures
        merged(merged(store, first), second) == merged(store, first + second),
{
    if second.len() == 0 {
        assert(first + second =~= first);
    } else {
        assert((first + second).last() == second.last());
    }
}

/// After any run of at least one snapshot the store holds exactly the last one.
pub proof fn lemma_last_snapshot_wins(store: CrystalView, events: Seq<Seq<AtomView>>)
    requires
        events.len() > 0,
    ensures
        merged(store, events).atoms == events.last(),
        merged(store, events).changed,
{
}

} // verus!
