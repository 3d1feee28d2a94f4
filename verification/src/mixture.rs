//! Bookkeeping model of a nuclide mixture, stored behind any container
//! strategy.
//!
//! A mixture records which nuclides it was given and in what initial
//! quantity — an activity or an atom count per nuclide. The queries here
//! report that recorded composition: what stands in the mixture at its
//! initial instant, and what an empty mixture emits. Evolving a mixture to
//! a later instant takes the decay data of a nuclide database, a foreign
//! component outside this crate, so no query here speaks of later instants.
//!
//! [`GenericMixture`] wraps the record in a container of any strategy and
//! gates every mutation on exclusive access to it, as the container
//! contract demands: through a shared handle, mutations report failure and
//! change nothing.

use vstd::prelude::*;

use crate::borrowed::{RefContainer, Slot};
use crate::boxed::BoxContainer;
use crate::container::Container;
use crate::moveable::Moveable;

verus! {

/// Kind of decay product a particle query asks for.
#[derive(Debug, Clone, Copy, PartialEq, Eq, Structural)]
pub enum ProductType {
    /// Electron emission.
    BetaParticle,
    /// Photons above a couple keV, from nuclear state transitions.
    GammaParticle,
    /// Helium-4 nuclei.
    AlphaParticle,
    /// Positron emission.
    PositronParticle,
    /// Neutrino accompanying electron capture.
    CaptureElectronParticle,
    /// Photons below a couple keV, from the atomic shell.
    XrayParticle,
}

/// Requested ordering of emission listings.
#[derive(Debug, Clone, Copy, PartialEq, Eq, Structural)]
pub enum HowToOrder {
    /// Most abundant lines first.
    OrderByAbundance,
    /// Ordered by line energy.
    OrderByEnergy,
}

/// A nuclide together with an activity, in whole activity units.
#[derive(Debug, Clone, Copy, PartialEq, Eq, Structural)]
pub struct NuclideActivityPair {
    /// The nuclide.
    pub nuclide: crate::nuclide_spec::NumSpec,
    /// Its activity.
    pub activity: u64,
}

/// A nuclide together with a number of atoms.
#[derive(Debug, Clone, Copy, PartialEq, Eq, Structural)]
pub struct NuclideNumAtomsPair {
    /// The nuclide.
    pub nuclide: crate::nuclide_spec::NumSpec,
    /// How many of its atoms are present.
    pub num_atoms: u64,
}

/// One emission line: an energy, in electron-volts, and how many such
/// emissions occur per second.
#[derive(Debug, Clone, Copy, PartialEq, Eq, Structural)]
pub struct EnergyRatePair {
    /// Line energy in electron-volts.
    pub energy: u64,
    /// Emissions per second.
    pub num_per_second: u64,
}

/// The energy of the annihilation gamma line, in electron-volts. A photon
/// listing always carries this line, even for a mixture holding nothing.
pub const ANNIHILATION_ENERGY_EV: u64 = 510999;

/// Sum of the activities of the listed pairs.
pub open spec fn total_of(pairs: Seq<NuclideActivityPair>) -> int
    decreases pairs.len(),
{
    if pairs.len() == 0 {
        0
    } else {
        total_of(pairs.drop_last()) + pairs.last().activity
    }
}

/// The recorded composition of a mixture: which nuclides were added, each
/// with its initial quantity.
///
/// Additions are recorded in order; nothing is merged, so adding one
/// nuclide twice records two entries, as the foreign mixture object does.
#[derive(Debug)]
pub struct NuclideMixture {
    activity_pairs: Vec<NuclideActivityPair>,
    atom_pairs: Vec<NuclideNumAtomsPair>,
}

impl NuclideMixture {
    /// The nuclides added with an initial activity, in addition order.
    pub closed spec fn activities_added(&self) -> Seq<NuclideActivityPair> {
        self.activity_pairs@
    }

    /// The nuclides added with an initial atom count, in addition order.
    pub closed spec fn atoms_added(&self) -> Seq<NuclideNumAtomsPair> {
        self.atom_pairs@
    }

    /// Whether nothing has been added.
    pub open spec fn is_empty(&self) -> bool {
        self.activities_added().len() == 0 && self.atoms_added().len() == 0
    }

    /// An empty mixture.
    pub fn new() -> (m: Self)
        ensures
            m.activities_added() == Seq::<NuclideActivityPair>::empty(),
            m.atoms_added() == Seq::<NuclideNumAtomsPair>::empty(),
    {
        NuclideMixture { activity_pairs: Vec::new(), atom_pairs: Vec::new() }
    }

    /// Records one nuclide with its initial activity.
    pub fn add_nuclide_activity_pair(&mut self, pair: NuclideActivityPair)
        ensures
            final(self).activities_added() == old(self).activities_added().push(pair),
            final(self).atoms_added() == old(self).atoms_added(),
    {
        self.activity_pairs.push(pair);
    }

    /// Records one nuclide with its initial atom count.
    pub fn add_nuclide_num_atoms_pair(&mut self, pair: NuclideNumAtomsPair)
        ensures
            final(self).atoms_added() == old(self).atoms_added().push(pair),
            final(self).activities_added() == old(self).activities_added(),
    {
        self.atom_pairs.push(pair);
    }

    /// Records one nuclide by its initial activity.
    pub fn add_nuclide_by_activity(
        &mut self,
        nuclide: crate::nuclide_spec::NumSpec,
        start_activity: u64,
    )
        ensures
            final(self).activities_added() == old(self).activities_added().push(
                NuclideActivityPair { nuclide, activity: start_activity },
            ),
            final(self).atoms_added() == old(self).atoms_added(),
    {
        self.add_nuclide_activity_pair(NuclideActivityPair { nuclide, activity: start_activity });
    }

    /// Records one nuclide by how many of its atoms are initially present.
    pub fn add_nuclide_by_abundance(
        &mut self,
        nuclide: crate::nuclide_spec::NumSpec,
        num_init_atoms: u64,
    )
        ensures
            final(self).atoms_added() == old(self).atoms_added().push(
                NuclideNumAtomsPair { nuclide, num_atoms: num_init_atoms },
            ),
            final(self).activities_added() == old(self).activities_added(),
    {
        self.add_nuclide_num_atoms_pair(NuclideNumAtomsPair { nuclide, num_atoms: num_init_atoms });
    }

    /// Forgets everything that was added.
    pub fn clear(&mut self)
        ensures
            final(self).activities_added() == Seq::<NuclideActivityPair>::empty(),
            final(self).atoms_added() == Seq::<NuclideNumAtomsPair>::empty(),
    {
        self.activity_pairs.clear();
        self.atom_pairs.clear();
    }

    /// How many nuclides were added, both kinds of addition together.
    pub fn num_initial_nuclides(&self) -> (n: usize)
        requires
            self.activities_added().len() + self.atoms_added().len() <= usize::MAX,
        ensures
            n == self.activities_added().len() + self.atoms_added().len(),
    {
        self.activity_pairs.len() + self.atom_pairs.len()
    }

    /// The activity pairs standing in the mixture at the given instant.
    /// Only the initial instant is answered here: evolving the mixture to a
    /// later one takes the decay data of a nuclide database, which lives
    /// outside this crate.
    pub fn activities(&self, time: u64) -> (r: Vec<NuclideActivityPair>)
        requires
            time == 0,
        ensures
            r@ == self.activities_added(),
    {
        let mut out: Vec<NuclideActivityPair> = Vec::new();
        let mut i: usize = 0;
        while i < self.activity_pairs.len()
            invariant
                i <= self.activity_pairs@.len(),
                out@ == self.activity_pairs@.take(i as int),
            decreases self.activity_pairs@.len() - i,
        {
            out.push(self.activity_pairs[i]);
            proof {
                assert(self.activity_pairs@.take(i + 1).drop_last() =~= self.activity_pairs@.take(
                    i as int,
                ));
                assert(out@ =~= self.activity_pairs@.take(i + 1));
            }
            i = i + 1;
        }
        proof {
            assert(self.activity_pairs@.take(self.activity_pairs@.len() as int)
                =~= self.activity_pairs@);
        }
        out
    }

    /// The atom-count pairs standing in the mixture at the given instant;
    /// as with [`NuclideMixture::activities`], only the initial instant is
    /// answered here.
    pub fn num_atoms(&self, time: u64) -> (r: Vec<NuclideNumAtomsPair>)
        requires
            time == 0,
        ensures
            r@ == self.atoms_added(),
    {
        let mut out: Vec<NuclideNumAtomsPair> = Vec::new();
        let mut i: usize = 0;
        while i < self.atom_pairs.len()
            invariant
                i <= self.atom_pairs@.len(),
                out@ == self.atom_pairs@.take(i as int),
            decreases self.atom_pairs@.len() - i,
        {
            out.push(self.atom_pairs[i]);
            proof {
                assert(self.atom_pairs@.take(i + 1).drop_last() =~= self.atom_pairs@.take(i as int));
                assert(out@ =~= self.atom_pairs@.take(i + 1));
            }
            i = i + 1;
        }
        proof {
            assert(self.atom_pairs@.take(self.atom_pairs@.len() as int) =~= self.atom_pairs@);
        }
        out
    }

    /// The activity of the given nuclide at the initial instant: the
    /// activity it was first added with, or `None` when no activity was
    /// recorded for it.
    pub fn nuclide_activity(&self, time: u64, nuclide: crate::nuclide_spec::NumSpec) -> (r: Option<
        u64,
    >)
        requires
            time == 0,
        ensures
            match r {
                Some(a) => exists|i: int|
                    {
                        &&& 0 <= i < self.activities_added().len()
                        &&& (#[trigger] self.activities_added()[i]).nuclide == nuclide
                        &&& self.activities_added()[i].activity == a
                        &&& forall|j: int|
                            0 <= j < i ==> (#[trigger] self.activities_added()[j]).nuclide
                                != nuclide
                    },
                None => forall|i: int|
                    0 <= i < self.activities_added().len() ==> (
                    #[trigger] self.activities_added()[i]).nuclide != nuclide,
            },
    {
        let mut i: usize = 0;
        while i < self.activity_pairs.len()
            invariant
                i <= self.activity_pairs@.len(),
                forall|j: int|
                    0 <= j < i ==> (#[trigger] self.activity_pairs@[j]).nuclide != nuclide,
            decreases self.activity_pairs@.len() - i,
        {
            if self.activity_pairs[i].nuclide.same_nuclide(&nuclide) {
                return Some(self.activity_pairs[i].activity);
            }
            i = i + 1;
        }
        None
    }

    /// The summed activity of everything in the mixture at the initial
    /// instant.
    pub fn total_activity(&self, time: u64) -> (r: u64)
        requires
            time == 0,
            total_of(self.activities_added()) <= u64::MAX,
        ensures
            r == total_of(self.activities_added()),
    {
        let mut acc: u64 = 0;
        let mut i: usize = 0;
        proof {
            lemma_total_of_prefix_bound(self.activity_pairs@);
        }
        while i < self.activity_pairs.len()
            invariant
                i <= self.activity_pairs@.len(),
                acc == total_of(self.activity_pairs@.take(i as int)),
                forall|k: int|
                    0 <= k <= self.activity_pairs@.len() ==> total_of(
                        #[trigger] self.activity_pairs@.take(k),
                    ) <= total_of(self.activity_pairs@),
                total_of(self.activity_pairs@) <= u64::MAX,
            decreases self.activity_pairs@.len() - i,
        {
            proof {
                assert(self.activity_pairs@.take(i + 1).drop_last() =~= self.activity_pairs@.take(
                    i as int,
                ));
                assert(total_of(self.activity_pairs@.take(i + 1)) == acc
                    + self.activity_pairs@[i as int].activity);
            }
            acc = acc + self.activity_pairs[i].activity;
            i = i + 1;
        }
        proof {
            assert(self.activity_pairs@.take(self.activity_pairs@.len() as int)
                =~= self.activity_pairs@);
        }
        acc
    }

    /// The photon lines an empty mixture emits: the annihilation gamma line
    /// alone, at no rate. Lines of added nuclides come from the decay data
    /// of a nuclide database, which lives outside this crate, so only the
    /// mixture holding nothing is answered here.
    pub fn photons(&self, time: u64, order: HowToOrder) -> (r: Vec<EnergyRatePair>)
        requires
            time == 0,
            self.is_empty(),
        ensures
            r@ == seq![EnergyRatePair { energy: ANNIHILATION_ENERGY_EV, num_per_second: 0 }],
    {
        let mut out: Vec<EnergyRatePair> = Vec::new();
        out.push(EnergyRatePair { energy: ANNIHILATION_ENERGY_EV, num_per_second: 0 });
        proof {
            assert(out@ =~= seq![
                EnergyRatePair { energy: ANNIHILATION_ENERGY_EV, num_per_second: 0 },
            ]);
        }
        out
    }

    /// The decay-product lines of the requested kind an empty mixture
    /// emits: none. As with [`NuclideMixture::photons`], lines of added
    /// nuclides come from decay data outside this crate.
    pub fn decay_particle(&self, time: u64, ty: ProductType, order: HowToOrder) -> (r: Vec<
        EnergyRatePair,
    >)
        requires
            time == 0,
            self.is_empty(),
        ensures
            r@ == Seq::<EnergyRatePair>::empty(),
    {
        Vec::new()
    }

    /// The photons an empty mixture emits over an interval, up to the given
    /// number of lines: none.
    pub fn decay_photons_in_interval(
        &self,
        initial_age: u64,
        interval: u64,
        order: HowToOrder,
        nparticle_limit: usize,
    ) -> (r: Vec<EnergyRatePair>)
        requires
            self.is_empty(),
        ensures
            r@ == Seq::<EnergyRatePair>::empty(),
    {
        Vec::new()
    }

    /// The decay products of the requested kind an empty mixture emits over
    /// an interval, up to the given number of lines: none.
    pub fn decay_particles_in_interval(
        &self,
        initial_age: u64,
        interval: u64,
        ty: ProductType,
        order: HowToOrder,
        nparticle_limit: usize,
    ) -> (r: Vec<EnergyRatePair>)
        requires
            self.is_empty(),
        ensures
            r@ == Seq::<EnergyRatePair>::empty(),
    {
        Vec::new()
    }
}

impl Moveable for NuclideMixture {
    fn mv(self) -> (r: Self) {
        self
    }
}

/// Error of [`GenericMixture::add_nuclide_in_secular_equilibrium`].
#[derive(Debug, Clone, Copy, PartialEq, Eq, Structural)]
pub enum AddSecularEquilibriumNuclideError {
    /// The container's access to the mixture is not exclusive.
    NonExclusive,
    /// The nuclide cannot obtain secular equilibrium.
    NoSecularEquilibrium,
}

/// A nuclide mixture stored behind a container of any strategy.
///
/// Reads go through the container's shared access; every mutation goes
/// through its exclusive access, so on a shared strategy a mutation through
/// a non-sole handle reports failure and changes nothing.
#[derive(Debug)]
pub struct GenericMixture<C: Container<Inner = NuclideMixture>> {
    container: C,
}

/// Nuclide mixture on its own heap allocation.
pub type Mixture = GenericMixture<BoxContainer<NuclideMixture>>;

/// Nuclide mixture in caller-supplied storage.
pub type LocalMixture = GenericMixture<RefContainer<NuclideMixture>>;

impl<C: Container<Inner = NuclideMixture> + Clone> Clone for GenericMixture<C> {
    /// Another handle to the same stored mixture; what the clone of the
    /// underlying container guarantees is the strategy's affair.
    fn clone(&self) -> (r: Self) {
        GenericMixture { container: self.container.clone() }
    }
}

impl<C: Container<Inner = NuclideMixture>> GenericMixture<C> {
    /// The recorded mixture this handle reads.
    pub closed spec fn mixture(&self) -> NuclideMixture {
        self.container.inner_value()
    }

    /// Allocates an empty mixture with the given allocator.
    pub fn new_in(allocator: C::Allocator) -> (m: Self)
        ensures
            m.mixture().activities_added() == Seq::<NuclideActivityPair>::empty(),
            m.mixture().atoms_added() == Seq::<NuclideNumAtomsPair>::empty(),
    {
        GenericMixture { container: C::init_value(allocator, NuclideMixture::new()) }
    }

    /// Allocates an empty mixture, with the allocator taken from its
    /// `Default` implementation.
    pub fn new() -> (m: Self) where C::Allocator: Default
        ensures
            m.mixture().activities_added() == Seq::<NuclideActivityPair>::empty(),
            m.mixture().atoms_added() == Seq::<NuclideNumAtomsPair>::empty(),
    {
        Self::new_in(C::Allocator::default())
    }

    /// Shared read access to the recorded mixture.
    pub fn get(&self) -> (r: &NuclideMixture)
        ensures
            *r == self.mixture(),
    {
        self.container.get()
    }

    /// Records one nuclide by its initial activity. Reports `false`, and
    /// records nothing, when this handle is not the sole owner.
    pub fn add_nuclide_by_activity(
        &mut self,
        nuclide: crate::nuclide_spec::NumSpec,
        start_activity: u64,
    ) -> (r: bool)
        ensures
            C::always_exclusive() ==> r,
            r ==> final(self).mixture().activities_added() == old(
                self,
            ).mixture().activities_added().push(
                NuclideActivityPair { nuclide, activity: start_activity },
            ) && final(self).mixture().atoms_added() == old(self).mixture().atoms_added(),
            !r ==> *final(self) == *old(self),
    {
        match self.container.try_inner() {
            Some(m) => {
                m.add_nuclide_by_activity(nuclide, start_activity);
                true
            },
            None => false,
        }
    }

    /// Records one nuclide by its initial atom count. Reports `false`, and
    /// records nothing, when this handle is not the sole owner.
    pub fn add_nuclide_by_abundance(
        &mut self,
        nuclide: crate::nuclide_spec::NumSpec,
        num_init_atoms: u64,
    ) -> (r: bool)
        ensures
            C::always_exclusive() ==> r,
            r ==> final(self).mixture().atoms_added() == old(self).mixture().atoms_added().push(
                NuclideNumAtomsPair { nuclide, num_atoms: num_init_atoms },
            ) && final(self).mixture().activities_added() == old(
                self,
            ).mixture().activities_added(),
            !r ==> *final(self) == *old(self),
    {
        match self.container.try_inner() {
            Some(m) => {
                m.add_nuclide_by_abundance(nuclide, num_init_atoms);
                true
            },
            None => false,
        }
    }

    /// Records a nuclide said to stand in secular equilibrium with its
    /// descendants. Whether the nuclide can reach that equilibrium is a
    /// fact of the decay data, determined outside this crate and handed in
    /// as `can_obtain_equilibrium`; the parent is recorded exactly when the
    /// handle is the sole owner and the equilibrium is attainable, and each
    /// error names which of the two conditions failed.
    pub fn add_nuclide_in_secular_equilibrium(
        &mut self,
        parent: crate::nuclide_spec::NumSpec,
        parent_activity: u64,
        can_obtain_equilibrium: bool,
    ) -> (r: Result<(), AddSecularEquilibriumNuclideError>)
        ensures
            C::always_exclusive() ==> r != Err::<(), _>(
                AddSecularEquilibriumNuclideError::NonExclusive,
            ),
            match r {
                Ok(()) => can_obtain_equilibrium && final(self).mixture().activities_added() == old(
                    self,
                ).mixture().activities_added().push(
                    NuclideActivityPair { nuclide: parent, activity: parent_activity },
                ) && final(self).mixture().atoms_added() == old(self).mixture().atoms_added(),
                Err(AddSecularEquilibriumNuclideError::NoSecularEquilibrium) => {
                    &&& !can_obtain_equilibrium
                    &&& final(self).mixture() == old(self).mixture()
                },
                Err(AddSecularEquilibriumNuclideError::NonExclusive) => *final(self) == *old(self),
            },
    {
        match self.container.try_inner() {
            Some(m) => {
                if can_obtain_equilibrium {
                    m.add_nuclide_by_activity(parent, parent_activity);
                    Ok(())
                } else {
                    Err(AddSecularEquilibriumNuclideError::NoSecularEquilibrium)
                }
            },
            None => Err(AddSecularEquilibriumNuclideError::NonExclusive),
        }
    }

    /// Forgets everything that was added. Reports `false`, and changes
    /// nothing, when this handle is not the sole owner.
    pub fn clear(&mut self) -> (r: bool)
        ensures
            C::always_exclusive() ==> r,
            r ==> final(self).mixture().activities_added() == Seq::<NuclideActivityPair>::empty()
                && final(self).mixture().atoms_added() == Seq::<NuclideNumAtomsPair>::empty(),
            !r ==> *final(self) == *old(self),
    {
        match self.container.try_inner() {
            Some(m) => {
                m.clear();
                true
            },
            None => false,
        }
    }

    /// The summed activity of the mixture at the initial instant, as
    /// [`NuclideMixture::total_activity`] reports it.
    pub fn total_activity(&self, time: u64) -> (r: u64)
        requires
            time == 0,
            total_of(self.mixture().activities_added()) <= u64::MAX,
        ensures
            r == total_of(self.mixture().activities_added()),
    {
        self.container.get().total_activity(time)
    }

    /// The activity recorded for the given nuclide, as
    /// [`NuclideMixture::nuclide_activity`] reports it.
    pub fn nuclide_activity(&self, time: u64, nuclide: crate::nuclide_spec::NumSpec) -> (r: Option<
        u64,
    >)
        requires
            time == 0,
        ensures
            match r {
                Some(a) => exists|i: int|
                    {
                        &&& 0 <= i < self.mixture().activities_added().len()
                        &&& (#[trigger] self.mixture().activities_added()[i]).nuclide == nuclide
                        &&& self.mixture().activities_added()[i].activity == a
                        &&& forall|j: int|
                            0 <= j < i ==> (#[trigger] self.mixture().activities_added()[j]).nuclide
                                != nuclide
                    },
                None => forall|i: int|
                    0 <= i < self.mixture().activities_added().len() ==> (
                    #[trigger] self.mixture().activities_added()[i]).nuclide != nuclide,
            },
    {
        self.container.get().nuclide_activity(time, nuclide)
    }

    /// The activity pairs at the initial instant, placed in caller-supplied
    /// storage.
    pub fn activities_local(&self, slot: Slot<Vec<NuclideActivityPair>>, time: u64) -> (r:
        RefContainer<Vec<NuclideActivityPair>>)
        requires
            time == 0,
        ensures
            r.inner_value()@ == self.mixture().activities_added(),
    {
        let pairs = self.container.get().activities(time);
        <RefContainer<_> as Container>::init_value(slot, pairs)
    }

    /// The atom-count pairs at the initial instant, placed in
    /// caller-supplied storage.
    pub fn num_atoms_local(&self, slot: Slot<Vec<NuclideNumAtomsPair>>, time: u64) -> (r:
        RefContainer<Vec<NuclideNumAtomsPair>>)
        requires
            time == 0,
        ensures
            r.inner_value()@ == self.mixture().atoms_added(),
    {
        let pairs = self.container.get().num_atoms(time);
        <RefContainer<_> as Container>::init_value(slot, pairs)
    }

    /// The photon lines of the empty mixture — the annihilation line alone
    /// — placed in caller-supplied storage.
    pub fn photons_local(&self, slot: Slot<Vec<EnergyRatePair>>, time: u64, order: HowToOrder) -> (
        r: RefContainer<Vec<EnergyRatePair>>)
        requires
            time == 0,
            self.mixture().is_empty(),
        ensures
            r.inner_value()@ == seq![
                EnergyRatePair { energy: ANNIHILATION_ENERGY_EV, num_per_second: 0 },
            ],
    {
        let lines = self.container.get().photons(time, order);
        <RefContainer<_> as Container>::init_value(slot, lines)
    }

    /// The decay-product lines of the empty mixture — none — placed in
    /// caller-supplied storage.
    pub fn decay_particle_local(
        &self,
        slot: Slot<Vec<EnergyRatePair>>,
        time: u64,
        ty: ProductType,
        order: HowToOrder,
    ) -> (r: RefContainer<Vec<EnergyRatePair>>)
        requires
            time == 0,
            self.mixture().is_empty(),
        ensures
            r.inner_value()@ == Seq::<EnergyRatePair>::empty(),
    {
        let lines = self.container.get().decay_particle(time, ty, order);
        <RefContainer<_> as Container>::init_value(slot, lines)
    }

    /// The photons of the empty mixture over an interval — none — placed in
    /// caller-supplied storage.
    pub fn decay_photons_in_interval_local(
        &self,
        slot: Slot<Vec<EnergyRatePair>>,
        initial_age: u64,
        interval: u64,
        order: HowToOrder,
        nparticle_limit: usize,
    ) -> (r: RefContainer<Vec<EnergyRatePair>>)
        requires
            self.mixture().is_empty(),
        ensures
            r.inner_value()@ == Seq::<EnergyRatePair>::empty(),
    {
        let lines = self.container.get().decay_photons_in_interval(
            initial_age,
            interval,
            order,
            nparticle_limit,
        );
        <RefContainer<_> as Container>::init_value(slot, lines)
    }

    /// The decay products of the empty mixture over an interval — none —
    /// placed in caller-supplied storage.
    pub fn decay_particles_in_interval_local(
        &self,
        slot: Slot<Vec<EnergyRatePair>>,
        initial_age: u64,
        interval: u64,
        ty: ProductType,
        order: HowToOrder,
        nparticle_limit: usize,
    ) -> (r: RefContainer<Vec<EnergyRatePair>>)
        requires
            self.mixture().is_empty(),
        ensures
            r.inner_value()@ == Seq::<EnergyRatePair>::empty(),
    {
        let lines = self.container.get().decay_particles_in_interval(
            initial_age,
            interval,
            ty,
            order,
            nparticle_limit,
        );
        <RefContainer<_> as Container>::init_value(slot, lines)
    }
}

/// Every prefix of a list of activity pairs sums to no more than the whole
/// list: activities are never negative.
proof fn lemma_total_of_prefix_bound(pairs: Seq<NuclideActivityPair>)
    ensures
        forall|k: int| 0 <= k <= pairs.len() ==> total_of(#[trigger] pairs.take(k)) <= total_of(
            pairs,
        ),
    decreases pairs.len(),
{
    if pairs.len() > 0 {
        lemma_total_of_prefix_bound(pairs.drop_last());
        assert forall|k: int| 0 <= k <= pairs.len() implies total_of(#[trigger] pairs.take(k))
            <= total_of(pairs) by {
            if k < pairs.len() {
                assert(pairs.take(k) =~= pairs.drop_last().take(k));
                assert(total_of(pairs.drop_last().take(k)) <= total_of(pairs.drop_last()));
            } else {
                assert(pairs.take(k) =~= pairs);
            }
        }
    } else {
        assert forall|k: int| 0 <= k <= pairs.len() implies total_of(#[trigger] pairs.take(k))
            <= total_of(pairs) by {
            assert(pairs.take(k) =~= pairs);
        }
    }
}

} // verus!
