//! The scene: one visual per atom, rebuilt whenever the structure was replaced.

use vstd::prelude::*;
use crate::constants::{color_of, element_of, get_element_color, get_element_size, size_of, Rgb};
use crate::structure::{merged, Atom, AtomView, Crystal, CrystalView};

verus! {

/// The material shared by all visuals of one label.
#[derive(Debug, PartialEq, Eq)]
pub struct Material {
    pub element: String,
    pub color: Rgb,
}

/// What a [`Material`] stands for in contracts.
pub struct MaterialView {
    pub element: Seq<char>,
    pub color: Rgb,
}

impl View for Material {
    type V = MaterialView;

    open spec fn view(&self) -> MaterialView {
        MaterialView { element: self.element@, color: self.color }
    }
}

impl DeepView for Material {
    type V = MaterialView;

    open spec fn deep_view(&self) -> MaterialView {
        self@
    }
}

/// The visual of one atom: where it stands, how large it is drawn, and which
/// material of the scene it uses. Coordinates are bit patterns as in an atom;
/// the radius is in hundredths of a length unit.
#[derive(Clone, Copy, Debug, PartialEq, Eq, Structural)]
pub struct AtomEntity {
    pub x: u32,
    pub y: u32,
    pub z: u32,
    pub radius: u32,
    pub material: usize,
}

/// All visuals on display and the materials they share.
#[derive(Debug, PartialEq, Eq)]
pub struct Scene {
    pub materials: Vec<Material>,
    pub entities: Vec<AtomEntity>,
}

/// What a [`Scene`] stands for in contracts.
pub struct SceneView {
    pub materials: Seq<MaterialView>,
    pub entities: Seq<AtomEntity>,
}

impl Scene {
    /// A scene that shows nothing.
    pub fn new() -> (scene: Scene)
        ensures
            scene@ == (SceneView { materials: Seq::empty(), entities: Seq::empty() }),
    {
        let scene = Scene { materials: Vec::new(), entities: Vec::new() };
        assert(scene.materials.deep_view() =~= Seq::<MaterialView>::empty());
        scene
    }
}

impl View for Scene {
    type V = SceneView;

    open spec fn view(&self) -> SceneView {
        SceneView { materials: self.materials.deep_view(), entities: self.entities@ }
    }
}

/// The labels of a structure, each once, in the order in which they first occur.
pub open spec fn distinct_labels(atoms: Seq<AtomView>) -> Seq<Seq<char>>
    decreases atoms.len(),
{
    if atoms.len() == 0 {
        Seq::empty()
    } else {
        let before = distinct_labels(atoms.drop_last());
        let label = atoms.last().element;
        if before.contains(label) {
            before
        } else {
            before.push(label)
        }
    }
}

/// The material made for a label.
pub open spec fn material_for(label: Seq<char>) -> MaterialView {
    MaterialView { element: label, color: color_of(element_of(label)) }
}

/// The visual that stands for atom `i` of a structure.
pub open spec fn visual_of(atoms: Seq<AtomView>, i: int) -> AtomEntity {
    AtomEntity {
        x: atoms[i].x,
        y: atoms[i].y,
        z: atoms[i].z,
        radius: size_of(element_of(atoms[i].element)),
        material: distinct_labels(atoms).index_of(atoms[i].element) as usize,
    }
}

/// The scene built for a structure: a material for each distinct label and a
/// visual for each atom, in list order.
pub open spec fn rebuilt(atoms: Seq<AtomView>) -> SceneView {
    SceneView {
        materials: distinct_labels(atoms).map_values(|label: Seq<char>| material_for(label)),
        entities: Seq::new(atoms.len(), |i: int| visual_of(atoms, i)),
    }
}

/// Store and scene after one synchronisation pass.
pub open spec fn refreshed(crystal: CrystalView, scene: SceneView) -> (CrystalView, SceneView) {
    if crystal.changed {
        (CrystalView { atoms: crystal.atoms, changed: false }, rebuilt(crystal.atoms))
    } else {
        (crystal, scene)
    }
}

/// The distinct labels hold no label twice, hold the label of every atom, and
/// hold no label that no atom has.
pub proof fn lemma_distinct_labels(atoms: Seq<AtomView>)
    ensures
        distinct_labels(atoms).no_duplicates(),
        distinct_labels(atoms).len() <= atoms.len(),
        forall|i: int|
            0 <= i < atoms.len() ==> distinct_labels(atoms).contains(#[trigger] atoms[i].element),
        forall|k: int|
            0 <= k < distinct_labels(atoms).len() ==> exists|i: int|
                0 <= i < atoms.len() && atoms[i].element == #[trigger] distinct_labels(atoms)[k],
    decreases atoms.len(),
{
    if atoms.len() > 0 {
        let shorter = atoms.drop_last();
        let before = distinct_labels(shorter);
        let label = atoms.last().element;
        let last = atoms.len() - 1;
        lemma_distinct_labels(shorter);
        let all = distinct_labels(atoms);
        assert forall|i: int| 0 <= i < atoms.len() implies all.contains(
            #[trigger] atoms[i].element,
        ) by {
            if i < last {
                assert(shorter[i] == atoms[i]);
                assert(before.contains(shorter[i].element));
                let k = before.index_of(shorter[i].element);
                assert(all[k] == atoms[i].element);
            } else if before.contains(label) {
            } else {
                assert(all[before.len() as int] == label);
            }
        }
        assert forall|k: int| 0 <= k < all.len() implies exists|i: int|
            0 <= i < atoms.len() && atoms[i].element == #[trigger] all[k] by {
            if k < before.len() {
                assert(all[k] == before[k]);
                let i = choose|i: int| 0 <= i < shorter.len() && shorter[i].element == before[k];
                assert(atoms[i].element == all[k]);
            } else {
                assert(atoms[last].element == all[k]);
            }
        }
    }
}

/// The distinct labels of the first `n` atoms open the distinct labels of all.
pub proof fn lemma_distinct_labels_prefix(atoms: Seq<AtomView>, n: int)
    requires
        0 <= n <= atoms.len(),
    ensures
        distinct_labels(atoms.take(n)).len() <= distinct_labels(atoms).len(),
        forall|k: int|
            0 <= k < distinct_labels(atoms.take(n)).len() ==> distinct_labels(atoms)[k]
                == #[trigger] distinct_labels(atoms.take(n))[k],
    decreases atoms.len(),
{
    if n == atoms.len() {
        assert(atoms.take(n) =~= atoms);
    } else {
        let shorter = atoms.drop_last();
        assert(shorter.take(n) =~= atoms.take(n));
        lemma_distinct_labels_prefix(shorter, n);
    }
}

/// The index of the material with a given label, if the list holds one.
fn find_material(materials: &Vec<Material>, label: &String) -> (found: Option<usize>)
    ensures
        match found {
            Some(k) => k < materials.len() && materials[k as int].element@ == label@,
            None => forall|k: int|
                0 <= k < materials.len() ==> materials[k].element@ != label@,
        },
{
    let mut k: usize = 0;
    while k < materials.len()
        invariant
            k <= materials.len(),
            forall|j: int| 0 <= j < k ==> materials[j].element@ != label@,
        decreases materials.len() - k,
    {
        if materials[k].element == *label {
            return Some(k);
        }
        k += 1;
    }
    None
}

/// Builds the scene for a structure: one visual per atom, at the atom's
/// position and in list order, and one material per distinct label, made when
/// the label is first met.
pub fn rebuild(structure: &Vec<Atom>) -> (scene: Scene)
    ensures
        scene@ == rebuilt(structure.deep_view()),
{
    let ghost atoms = structure.deep_view();
    let mut materials: Vec<Material> = Vec::new();
    let mut entities: Vec<AtomEntity> = Vec::new();
    proof {
        lemma_distinct_labels(atoms);
        assert(atoms.take(0) =~= Seq::<AtomView>::empty());
    }
    let mut i: usize = 0;
    while i < structure.len()
        invariant
            i <= structure.len(),
            atoms == structure.deep_view(),
            atoms.len() == structure.len(),
            distinct_labels(atoms).no_duplicates(),
            materials.len() == distinct_labels(atoms.take(i as int)).len(),
            forall|k: int|
                0 <= k < materials.len() ==> (#[trigger] materials[k])@ == material_for(
                    distinct_labels(atoms.take(i as int))[k],
                ),
            entities.len() == i,
            forall|j: int| 0 <= j < i ==> #[trigger] entities[j] == visual_of(atoms, j),
        decreases structure.len() - i,
    {
        let atom = &structure[i];
        let ghost before = distinct_labels(atoms.take(i as int));
        let ghost after = distinct_labels(atoms.take(i + 1));
        proof {
            assert(atoms[i as int] == atom@);
            assert(atoms.take(i + 1).drop_last() =~= atoms.take(i as int));
            assert(atoms.take(i + 1).last() == atoms[i as int]);
            lemma_distinct_labels_prefix(atoms, i + 1);
        }
        let index = match find_material(&materials, &atom.element) {
            Some(k) => {
                proof {
                    assert(before[k as int] == atom@.element);
                    assert(before.contains(atom@.element));
                }
                k
            },
            None => {
                proof {
                    if before.contains(atom@.element) {
                        let k = before.index_of(atom@.element);
                        assert(materials[k]@ == material_for(before[k]));
                    }
                    assert(after == before.push(atom@.element));
                }
                let color = get_element_color(atom.element.as_str());
                materials.push(Material { element: atom.element.clone(), color });
                materials.len() - 1
            },
        };
        proof {
            assert(after[index as int] == atom@.element);
            assert(distinct_labels(atoms)[index as int] == atom@.element);
        }
        let radius = get_element_size(atom.element.as_str());
        entities.push(AtomEntity { x: atom.x, y: atom.y, z: atom.z, radius, material: index });
        i += 1;
    }
    proof {
        assert(atoms.take(atoms.len() as int) =~= atoms);
        assert(materials.deep_view() =~= rebuilt(atoms).materials);
        assert(entities@ =~= rebuilt(atoms).entities);
    }
    Scene { materials, entities }
}

/// Builds the first scene of a session from the store as it stands.
pub fn setup_scene(crystal: &Crystal) -> (scene: Scene)
    ensures
        scene@ == rebuilt(crystal@.atoms),
{
    rebuild(&crystal.atoms)
}

/// Brings the scene in line with the store. Where the store was not replaced
/// since the last pass, nothing happens. Otherwise every visual is dropped and
/// the scene is built anew for the atoms now in the store; the store then
/// counts as unchanged.
pub fn refresh_atoms_system(crystal: &mut Crystal, scene: &mut Scene)
    ensures
        (final(crystal)@, final(scene)@) == refreshed(old(crystal)@, old(scene)@),
        final(crystal).atoms == old(crystal).atoms,
{
    if !crystal.changed {
        return;
    }
    *scene = rebuild(&crystal.atoms);
    crystal.changed = false;
}

/// A rebuilt scene has one visual per atom, and visual `i` stands where atom
/// `i` stands and has the radius of its element.
pub proof fn lemma_rebuilt_matches_structure(atoms: Seq<AtomView>)
    ensures
        rebuilt(atoms).entities.len() == atoms.len(),
        forall|i: int|
            0 <= i < atoms.len() ==> {
                let entity = #[trigger] rebuilt(atoms).entities[i];
                &&& entity.x == atoms[i].x
                &&& entity.y == atoms[i].y
                &&& entity.z == atoms[i].z
                &&& entity.radius == size_of(element_of(atoms[i].element))
            },
{
}

/// A rebuilt scene holds one material per distinct label: no two materials
/// share a label, and each visual points at the material of its atom's label.
pub proof fn lemma_rebuilt_materials(atoms: Seq<AtomView>)
    requires
        atoms.len() <= usize::MAX,
    ensures
        rebuilt(atoms).materials.len() <= atoms.len(),
        forall|j: int, k: int|
            0 <= j < k < rebuilt(atoms).materials.len() ==> (#[trigger] rebuilt(
                atoms,
            ).materials[j]).element != (#[trigger] rebuilt(atoms).materials[k]).element,
        forall|i: int|
            0 <= i < atoms.len() ==> {
                let entity = #[trigger] rebuilt(atoms).entities[i];
                &&& entity.material < rebuilt(atoms).materials.len()
                &&& rebuilt(atoms).materials[entity.material as int] == material_for(
                    atoms[i].element,
                )
            },
{
    lemma_distinct_labels(atoms);
    let labels = distinct_labels(atoms);
    assert forall|i: int| 0 <= i < atoms.len() implies {
        let entity = #[trigger] rebuilt(atoms).entities[i];
        &&& entity.material < rebuilt(atoms).materials.len()
        &&& rebuilt(atoms).materials[entity.material as int] == material_for(atoms[i].element)
    } by {
        assert(labels.contains(atoms[i].element));
        let k = labels.index_of(atoms[i].element);
        assert(0 <= k < labels.len() && labels[k] == atoms[i].element);
    }
}

/// A second pass with no merge in between leaves store and scene as the first
/// pass left them.
pub proof fn lemma_second_pass_is_idle(crystal: CrystalView, scene: SceneView)
    ensures
        ({
            let once = refreshed(crystal, scene);
            refreshed(once.0, once.1) == once
        }),
{
}

/// A tick that merged at least one snapshot shows the last of them and
/// nothing else, whatever the store and the scene held before.
pub proof fn lemma_tick_shows_last_snapshot(
    store: CrystalView,
    scene: SceneView,
    events: Seq<Seq<AtomView>>,
)
    requires
        events.len() > 0,
    ensures
        refreshed(merged(store, events), scene).0.atoms == events.last(),
        refreshed(merged(store, events), scene).1 == rebuilt(events.last()),
        refreshed(merged(store, events), scene).1.entities.len() == events.last().len(),
{
}

} // verus!
