//! Placement is decided by fit and capability, never by the storage mode.

use reims_vgpu_vulkan::memory::{MemoryClass, MemoryTopology};
use reims_vgpu_vulkan::placement::{place, DirectFit, HostCell, Route, StorageMode};

const UNIFIED_IMPORT: HostCell = HostCell {
    topology: MemoryTopology::Unified,
    host_pointer_import: true,
};
const UNIFIED_NO_IMPORT: HostCell = HostCell {
    topology: MemoryTopology::Unified,
    host_pointer_import: false,
};
const DISCRETE_IMPORT: HostCell = HostCell {
    topology: MemoryTopology::Discrete,
    host_pointer_import: true,
};
const DISCRETE_NO_IMPORT: HostCell = HostCell {
    topology: MemoryTopology::Discrete,
    host_pointer_import: false,
};

const CELLS: [HostCell; 4] = [
    UNIFIED_IMPORT,
    UNIFIED_NO_IMPORT,
    DISCRETE_IMPORT,
    DISCRETE_NO_IMPORT,
];
const MODES: [StorageMode; 3] = [
    StorageMode::Shared,
    StorageMode::Managed,
    StorageMode::Private,
];
const FITS: [DirectFit; 5] = [
    DirectFit::Exact,
    DirectFit::LinearBuffer,
    DirectFit::TilingDiffers,
    DirectFit::LayoutDiffers,
    DirectFit::UsageUnavailable,
];

/// A resource whose representation is exactly its guest pages, on a host
/// that can import them, is those pages. This is the cell the whole import
/// mechanism exists for.
#[test]
fn an_exact_fit_with_import_is_never_copied() {
    for cell in [UNIFIED_IMPORT, DISCRETE_IMPORT] {
        for mode in MODES {
            let p = place(mode, DirectFit::Exact, cell);
            assert_eq!(p.route, Route::DirectAlias, "{}", p.census());
            assert!(!p.route.copies_guest_writes());
            assert_eq!(p.route.working(), None);
        }
    }
}

/// A linear buffer's bytes are its bytes: nothing about a buffer's layout
/// can disagree with the guest's.
#[test]
fn a_linear_buffer_fits_wherever_import_exists() {
    assert_eq!(
        place(
            StorageMode::Shared,
            DirectFit::LinearBuffer,
            DISCRETE_IMPORT
        )
        .route,
        Route::DirectAlias
    );
}

/// Without import there is no direct alias on any topology, however well
/// the representation fits — the pages simply cannot become device memory.
#[test]
fn without_import_an_exact_fit_still_copies() {
    for cell in [UNIFIED_NO_IMPORT, DISCRETE_NO_IMPORT] {
        let p = place(StorageMode::Shared, DirectFit::Exact, cell);
        assert!(
            matches!(p.route, Route::HostStaging { .. }),
            "{}",
            p.census()
        );
        assert!(p.route.copies_guest_writes());
    }
}

/// A representation the guest's pages cannot serve still uses them as a
/// copy endpoint when import exists — a DMA the GPU performs rather than
/// bytes the CPU moves.
#[test]
fn a_misfitting_representation_still_imports_as_a_transfer_endpoint() {
    for fit in [
        DirectFit::TilingDiffers,
        DirectFit::LayoutDiffers,
        DirectFit::UsageUnavailable,
    ] {
        assert_eq!(
            place(StorageMode::Shared, fit, DISCRETE_IMPORT).route,
            Route::ImportedTransfer {
                working: MemoryClass::DeviceLocal
            },
            "{}",
            fit.name()
        );
        assert_eq!(
            place(StorageMode::Shared, fit, UNIFIED_IMPORT).route,
            Route::ImportedTransfer {
                working: MemoryClass::DeviceLocalPreferred
            }
        );
    }
}

/// The topology chooses the working representation's class and nothing
/// else. On unified it is the same DRAM either way, so a placement the CPU
/// can also reach is free; on discrete the GPU's reads must not cross the
/// bus.
#[test]
fn the_topology_chooses_the_working_class_and_not_the_route() {
    for import in [true, false] {
        let unified = place(
            StorageMode::Shared,
            DirectFit::TilingDiffers,
            HostCell {
                topology: MemoryTopology::Unified,
                host_pointer_import: import,
            },
        );
        let discrete = place(
            StorageMode::Shared,
            DirectFit::TilingDiffers,
            HostCell {
                topology: MemoryTopology::Discrete,
                host_pointer_import: import,
            },
        );
        assert_eq!(
            unified.route.name(),
            discrete.route.name(),
            "the topology did not change which route was taken"
        );
        assert_eq!(
            unified.route.working(),
            Some(MemoryClass::DeviceLocalPreferred)
        );
        assert_eq!(discrete.route.working(), Some(MemoryClass::DeviceLocal));
    }
}

/// The claim the whole crate is under: the same guest stream must mean the
/// same thing on every cell. A storage mode that changed the route would be
/// a mode that changed meaning, since a route is a performance decision.
#[test]
fn the_storage_mode_never_changes_the_route() {
    for cell in CELLS {
        for fit in FITS {
            let routes: Vec<Route> = MODES.iter().map(|m| place(*m, fit, cell).route).collect();
            assert!(
                routes.windows(2).all(|w| w[0] == w[1]),
                "storage mode changed the route for {} on {}/{}: {routes:?}",
                fit.name(),
                cell.topology.slug(),
                u8::from(cell.host_pointer_import)
            );
        }
    }
}

/// Private is not a licence to stop keeping guest pages current on this
/// wire, and the shortcut would be taken here if anywhere. The evidence is
/// in the protocol vocabulary; this is the check that the shortcut was not
/// taken.
#[test]
fn private_content_is_placed_exactly_as_shared_content_is() {
    for cell in CELLS {
        for fit in FITS {
            assert_eq!(
                place(StorageMode::Private, fit, cell).route,
                place(StorageMode::Shared, fit, cell).route,
                "private took a route shared did not, which is the \
                 stale-page defect with no counter"
            );
        }
    }
}

/// Every cell of the matrix resolves to a route, and the four cells are not
/// all the same route — a policy that answered identically everywhere would
/// be one with no capability input at all.
#[test]
fn every_cell_resolves_and_the_cells_differ() {
    let mut seen: Vec<&str> = Vec::new();
    for cell in CELLS {
        for fit in FITS {
            let p = place(StorageMode::Managed, fit, cell);
            assert!(p.census().contains("vk_placement"));
            seen.push(p.route.name());
        }
    }
    seen.sort_unstable();
    seen.dedup();
    assert_eq!(
        seen.len(),
        3,
        "all three routes are reachable from the matrix"
    );
}

#[test]
fn only_the_fitting_variants_fit() {
    assert!(DirectFit::Exact.fits());
    assert!(DirectFit::LinearBuffer.fits());
    assert!(!DirectFit::TilingDiffers.fits());
    assert!(!DirectFit::LayoutDiffers.fits());
    assert!(!DirectFit::UsageUnavailable.fits());
    let mut names: Vec<&str> = FITS.iter().map(|f| f.name()).collect();
    names.sort_unstable();
    let count = names.len();
    names.dedup();
    assert_eq!(names.len(), count);
}
