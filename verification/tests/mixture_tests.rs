use sdecay::container::Container;
use sdecay::borrowed::Slot;
use sdecay::mixture::{
    AddSecularEquilibriumNuclideError, HowToOrder, LocalMixture, Mixture, NuclideMixture,
    ProductType,
};
use sdecay::nuclide_spec::NumSpec;

const DAY: u64 = 86400;

#[test]
fn create() {
    let mx = LocalMixture::new_in(Slot::new());
    drop(mx);
}

#[test]
fn create_mixture() {
    // create empty mixture
    let mx = NuclideMixture::new();
    // drop mixture
    drop(mx);
}

#[test]
fn empty_activity() {
    let mx = LocalMixture::new_in(Slot::new());
    assert_eq!(mx.total_activity(0), 0);
}

#[test]
fn empty_activity_ok() {
    let mx = LocalMixture::new_in(Slot::new());
    let _ = mx.total_activity(0);
}

#[test]
fn empty_clear_ok() {
    let mut mx = LocalMixture::new_in(Slot::new());
    assert!(mx.clear());
}

#[test]
fn empty_activities_ok() {
    let mx = LocalMixture::new_in(Slot::new());
    let activities = mx.activities_local(Slot::new(), 0);
    println!("{activities:?}");
    assert!(activities.get().is_empty());
}

#[test]
fn empty_pacticles_ok() {
    let mx = LocalMixture::new_in(Slot::new());
    let particles = mx.decay_particle_local(
        Slot::new(),
        0,
        ProductType::BetaParticle,
        HowToOrder::OrderByEnergy,
    );
    println!("{particles:?}");
    assert!(particles.get().is_empty());
}

#[test]
fn empty_photons_ok() {
    let mx = LocalMixture::new_in(Slot::new());
    let photons = mx.photons_local(Slot::new(), 0, HowToOrder::OrderByEnergy);
    println!("{photons:?}");
    assert_eq!(
        photons.get().len(),
        1,
        "should include annihilation gammas only"
    );
}

#[test]
fn empty_particles_interval_ok() {
    let mx = LocalMixture::new_in(Slot::new());
    let photons = mx.decay_photons_in_interval_local(
        Slot::new(),
        0,
        DAY,
        HowToOrder::OrderByAbundance,
        1000,
    );
    println!("{photons:?}");
    assert!(photons.get().is_empty());
}

#[test]
fn empty_photons_interval_ok() {
    let mx = LocalMixture::new_in(Slot::new());
    let particles = mx.decay_particles_in_interval_local(
        Slot::new(),
        0,
        DAY,
        ProductType::XrayParticle,
        HowToOrder::OrderByEnergy,
        1000,
    );
    println!("{particles:?}");
    assert!(particles.get().is_empty());
}

#[test]
fn empty_num_atoms_ok() {
    let mx = LocalMixture::new_in(Slot::new());
    let _ = mx.num_atoms_local(Slot::new(), 0);
}

#[test]
fn absent_nuclide() {
    let h1 = NumSpec::new(1, 1);
    let mut mx = LocalMixture::new_in(Slot::new());
    assert!(mx.add_nuclide_by_activity(h1, 37_000));
    assert!(mx.nuclide_activity(0, NumSpec::new(92, 238)).is_none());
}

// One microcurie, in whole becquerel.
const MICROCURIE: u64 = 37_000;

#[test]
fn one_activity() {
    let mut mx = LocalMixture::new_in(Slot::new());
    let activity = MICROCURIE;
    let h3 = NumSpec::new(1, 3);
    assert!(mx.add_nuclide_by_activity(h3, activity));
    assert_eq!(mx.total_activity(0), activity);
    assert_eq!(mx.nuclide_activity(0, h3), Some(activity));
}

#[test]
fn two_activity() {
    let mut mx = LocalMixture::new_in(Slot::new());
    let activity = MICROCURIE;
    let h3 = NumSpec::new(1, 3);
    assert!(mx.add_nuclide_by_activity(h3, activity));
    let u238 = NumSpec::new(92, 238);
    assert!(mx.add_nuclide_by_activity(u238, activity));
    assert_eq!(mx.total_activity(0), 2 * activity);
}

#[test]
fn abundance_recorded() {
    let mut mx = Mixture::new_in(());
    assert!(mx.add_nuclide_by_abundance(NumSpec::new(92, 238), 1_000_000));
    let atoms = mx.num_atoms_local(Slot::new(), 0);
    assert_eq!(atoms.get().len(), 1);
    assert_eq!(atoms.get()[0].num_atoms, 1_000_000);
    assert_eq!(atoms.get()[0].nuclide, NumSpec::new(92, 238));
}

#[test]
fn secular_equilibrium_ok() {
    let mut mx = Mixture::new();
    assert_eq!(
        mx.add_nuclide_in_secular_equilibrium(NumSpec::new(92, 238), 100, true),
        Ok(())
    );
    assert_eq!(mx.total_activity(0), 100);
}

#[test]
fn secular_equilibrium_unattainable() {
    let mut mx = Mixture::new_in(());
    assert_eq!(
        mx.add_nuclide_in_secular_equilibrium(NumSpec::new(1, 1), 100, false),
        Err(AddSecularEquilibriumNuclideError::NoSecularEquilibrium)
    );
    assert_eq!(mx.total_activity(0), 0);
}

#[test]
fn secular_equilibrium_non_exclusive() {
    let mut mx = sdecay::mixture::GenericMixture::<
        sdecay::rc_container::RcContainer<NuclideMixture>,
    >::new_in(());
    let mx2 = mx.clone();
    assert_eq!(
        mx.add_nuclide_in_secular_equilibrium(NumSpec::new(92, 238), 100, true),
        Err(AddSecularEquilibriumNuclideError::NonExclusive)
    );
    drop(mx2);
    assert_eq!(
        mx.add_nuclide_in_secular_equilibrium(NumSpec::new(92, 238), 100, true),
        Ok(())
    );
}

#[test]
fn shared_mixture_add_gated() {
    let mut mx = sdecay::mixture::GenericMixture::<
        sdecay::rc_container::RcContainer<NuclideMixture>,
    >::new_in(());
    let mx2 = mx.clone();
    assert!(!mx.add_nuclide_by_activity(NumSpec::new(1, 1), 1));
    assert_eq!(mx.total_activity(0), 0);
    drop(mx2);
    assert!(mx.add_nuclide_by_activity(NumSpec::new(1, 1), 1));
    assert_eq!(mx.total_activity(0), 1);
}
