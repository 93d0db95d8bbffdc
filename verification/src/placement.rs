//! Where a resource's bytes live on this host, decided in one order from the
//! guest's declaration and this device's measured capabilities.
//!
//! First, whether the guest's own backing can serve the representation the
//! resource requires; then whether imported backing can at least be a transfer
//! endpoint; otherwise a host-visible staging representation. The topology
//! chooses the working representation's memory class.
//!
//! A route is a decision about performance, never about meaning: every route
//! produces the same guest-visible behaviour. The storage mode does not select
//! one.

use crate::memory::{MemoryClass, MemoryTopology};
use crate::text::{decimal, push_decimal, push_text};
use vstd::prelude::*;

verus! {

/// `MTLStorageMode`.
#[derive(Clone, Copy, Debug, PartialEq, Eq, Hash, Structural)]
pub enum StorageMode {
    Shared,
    Managed,
    Private,
}

impl StorageMode {
    /// The name of each mode.
    pub open spec fn name_text(self) -> Seq<char> {
        match self {
            StorageMode::Shared => "shared"@,
            StorageMode::Managed => "managed"@,
            StorageMode::Private => "private"@,
        }
    }

    /// The mode's name.
    #[must_use]
    pub fn name(self) -> (name: &'static str)
        ensures
            name@ == self.name_text(),
    {
        match self {
            StorageMode::Shared => "shared",
            StorageMode::Managed => "managed",
            StorageMode::Private => "private",
        }
    }
}

/// What this host offers, as capabilities rather than names.
#[derive(Clone, Copy, Debug, PartialEq, Eq, Structural)]
pub struct HostCell {
    pub topology: MemoryTopology,
    /// Guest pages can be imported as device memory. Not merely that the
    /// extension is present: it publishes no feature structure, so the name
    /// says only that the entry points resolve.
    pub host_pointer_import: bool,
}

/// Whether the guest's own backing can serve the representation the resource
/// requires, and if not, which requirement is costing the copies.
#[derive(Clone, Copy, Debug, PartialEq, Eq, Structural)]
pub enum DirectFit {
    /// Format, tiling, stride, plane layout and ownership all agree, so the
    /// guest's pages are the resource.
    Exact,
    /// A linear buffer's bytes are its bytes; nothing about a buffer can
    /// disagree with the guest's layout.
    LinearBuffer,
    /// The representation needs a tiling the guest's linear pages do not have.
    TilingDiffers,
    /// Stride, plane layout or extent do not line up with the guest's.
    LayoutDiffers,
    /// The resource is a render target or otherwise needs usage an imported
    /// allocation cannot carry here.
    UsageUnavailable,
}

impl DirectFit {
    /// The guest's pages are the resource.
    pub open spec fn is_fit(self) -> bool {
        self is Exact || self is LinearBuffer
    }

    /// Whether the guest's pages are the resource.
    #[must_use]
    pub fn fits(self) -> (fits: bool)
        ensures
            fits == self.is_fit(),
    {
        matches!(self, DirectFit::Exact | DirectFit::LinearBuffer)
    }

    /// The name of each answer.
    pub open spec fn name_text(self) -> Seq<char> {
        match self {
            DirectFit::Exact => "exact"@,
            DirectFit::LinearBuffer => "linear_buffer"@,
            DirectFit::TilingDiffers => "tiling_differs"@,
            DirectFit::LayoutDiffers => "layout_differs"@,
            DirectFit::UsageUnavailable => "usage_unavailable"@,
        }
    }

    /// The answer's name.
    #[must_use]
    pub fn name(self) -> (name: &'static str)
        ensures
            name@ == self.name_text(),
    {
        match self {
            DirectFit::Exact => "exact",
            DirectFit::LinearBuffer => "linear_buffer",
            DirectFit::TilingDiffers => "tiling_differs",
            DirectFit::LayoutDiffers => "layout_differs",
            DirectFit::UsageUnavailable => "usage_unavailable",
        }
    }
}

/// Where the resource's bytes end up.
#[derive(Clone, Copy, Debug, PartialEq, Eq, Structural)]
pub enum Route {
    /// The guest's pages, imported, are the resource. No copy ever happens and
    /// a guest write is visible without one.
    DirectAlias,
    /// The guest's pages are imported as a transfer endpoint, and a working
    /// representation is copied to and from them on the GPU.
    ImportedTransfer { working: MemoryClass },
    /// The guest's pages are copied through a host-visible staging
    /// representation, because they cannot be imported at all.
    HostStaging { working: MemoryClass },
}

impl Route {
    /// The class of the working representation, where there is one.
    pub open spec fn working_class(self) -> Option<MemoryClass> {
        match self {
            Route::DirectAlias => None,
            Route::ImportedTransfer { working } => Some(working),
            Route::HostStaging { working } => Some(working),
        }
    }

    /// The working representation's memory class, when there is one.
    #[must_use]
    pub fn working(self) -> (class: Option<MemoryClass>)
        ensures
            class == self.working_class(),
    {
        match self {
            Route::DirectAlias => None,
            Route::ImportedTransfer { working } | Route::HostStaging { working } => Some(working),
        }
    }

    /// Whether a guest write has to be copied before the GPU sees it.
    #[must_use]
    pub fn copies_guest_writes(self) -> (copies: bool)
        ensures
            copies == !(self is DirectAlias),
    {
        !matches!(self, Route::DirectAlias)
    }

    /// The name of each route.
    pub open spec fn name_text(self) -> Seq<char> {
        match self {
            Route::DirectAlias => "direct_alias"@,
            Route::ImportedTransfer { .. } => "imported_transfer"@,
            Route::HostStaging { .. } => "host_staging"@,
        }
    }

    /// The route's name.
    #[must_use]
    pub fn name(self) -> (name: &'static str)
        ensures
            name@ == self.name_text(),
    {
        match self {
            Route::DirectAlias => "direct_alias",
            Route::ImportedTransfer { .. } => "imported_transfer",
            Route::HostStaging { .. } => "host_staging",
        }
    }
}

/// The full decision, with the inputs that produced it.
#[derive(Clone, Copy, Debug, PartialEq, Eq, Structural)]
pub struct Placement {
    pub route: Route,
    pub mode: StorageMode,
    pub fit: DirectFit,
    pub cell: HostCell,
}

impl Placement {
    /// The decision in one line.
    pub open spec fn census_text(self) -> Seq<char> {
        "vk_placement route="@ + self.route.name_text() + " mode="@ + self.mode.name_text()
            + " fit="@ + self.fit.name_text() + " topology="@ + self.cell.topology.slug_text()
            + " import="@ + decimal(
            if self.cell.host_pointer_import {
                1
            } else {
                0
            },
        )
    }

    /// One line for the always-on report.
    #[must_use]
    pub fn census(&self) -> (text: String)
        ensures
            text@ == self.census_text(),
    {
        let mut text = String::new();
        push_text(&mut text, "vk_placement route=");
        push_text(&mut text, self.route.name());
        push_text(&mut text, " mode=");
        push_text(&mut text, self.mode.name());
        push_text(&mut text, " fit=");
        push_text(&mut text, self.fit.name());
        push_text(&mut text, " topology=");
        push_text(&mut text, self.cell.topology.slug());
        push_text(&mut text, " import=");
        let import: u64 = if self.cell.host_pointer_import {
            1
        } else {
            0
        };
        push_decimal(&mut text, import);
        assert(text@ =~= self.census_text());
        text
    }
}

/// The class of a working representation. Unified prefers memory the CPU can
/// also reach; discrete wants device-local.
pub open spec fn class_on(topology: MemoryTopology) -> MemoryClass {
    match topology {
        MemoryTopology::Unified => MemoryClass::DeviceLocalPreferred,
        MemoryTopology::Discrete => MemoryClass::DeviceLocal,
    }
}

/// The route a fit takes on a host.
pub open spec fn routed(fit: DirectFit, cell: HostCell) -> Route {
    if fit.is_fit() && cell.host_pointer_import {
        Route::DirectAlias
    } else if cell.host_pointer_import {
        Route::ImportedTransfer { working: class_on(cell.topology) }
    } else {
        Route::HostStaging { working: class_on(cell.topology) }
    }
}

/// The placement of a resource.
pub open spec fn placed(mode: StorageMode, fit: DirectFit, cell: HostCell) -> Placement {
    Placement { route: routed(fit, cell), mode, fit, cell }
}

/// Decide where a resource's bytes live.
///
/// The mode is carried on the answer and does not select the route: every mode
/// obliges the device to keep the guest's pages current.
#[must_use]
pub fn place(mode: StorageMode, fit: DirectFit, cell: HostCell) -> (placement: Placement)
    ensures
        placement == placed(mode, fit, cell),
{
    let route = route(fit, cell);
    Placement { route, mode, fit, cell }
}

fn route(fit: DirectFit, cell: HostCell) -> (route: Route)
    ensures
        route == routed(fit, cell),
{
    if fit.fits() && cell.host_pointer_import {
        return Route::DirectAlias;
    }
    let working = match cell.topology {
        MemoryTopology::Unified => MemoryClass::DeviceLocalPreferred,
        MemoryTopology::Discrete => MemoryClass::DeviceLocal,
    };
    if cell.host_pointer_import {
        Route::ImportedTransfer { working }
    } else {
        Route::HostStaging { working }
    }
}

/// Guest writes go uncopied exactly where the pages fit and can be imported,
/// on every topology.
pub proof fn law_only_an_imported_fit_is_never_copied(fit: DirectFit, cell: HostCell)
    ensures
        routed(fit, cell) is DirectAlias <==> fit.is_fit() && cell.host_pointer_import,
        routed(fit, cell).working_class() is None <==> routed(fit, cell) is DirectAlias,
{
}

/// The storage mode never changes the route.
pub proof fn law_the_storage_mode_never_changes_the_route(
    a: StorageMode,
    b: StorageMode,
    fit: DirectFit,
    cell: HostCell,
)
    ensures
        placed(a, fit, cell).route == placed(b, fit, cell).route,
{
}

/// The topology chooses the working class and never which route is taken.
pub proof fn law_the_topology_never_changes_the_route(fit: DirectFit, a: HostCell, b: HostCell)
    requires
        a.host_pointer_import == b.host_pointer_import,
    ensures
        routed(fit, a).name_text() == routed(fit, b).name_text(),
        routed(fit, a) is DirectAlias == routed(fit, b) is DirectAlias,
        routed(fit, a) is ImportedTransfer == routed(fit, b) is ImportedTransfer,
        routed(fit, a) is HostStaging == routed(fit, b) is HostStaging,
        !(routed(fit, a) is DirectAlias) ==> routed(fit, a).working_class() == Some(
            class_on(a.topology),
        ),
{
}

/// A placement keeps what it was decided from. Guest pages that fit and can be
/// imported are used as they are; pages that can be imported and do not fit are
/// copied from where they are; all others are staged. What is copied into is
/// device-local, and reachable by the host where the memory is one.
pub proof fn law_a_placement_follows_what_the_host_can_do(
    mode: StorageMode,
    fit: DirectFit,
    cell: HostCell,
    placement: Placement,
    fits: bool,
    working: Option<MemoryClass>,
    copies: bool,
)
    requires
        call_ensures(place, (mode, fit, cell), placement),
        call_ensures(DirectFit::fits, (fit,), fits),
        call_ensures(Route::working, (placement.route,), working),
        call_ensures(Route::copies_guest_writes, (placement.route,), copies),
    ensures
        placement.mode == mode,
        placement.fit == fit,
        placement.cell == cell,
        fits <==> fit is Exact || fit is LinearBuffer,
        placement.route is DirectAlias <==> fits && cell.host_pointer_import,
        placement.route is ImportedTransfer <==> !fits && cell.host_pointer_import,
        placement.route is HostStaging <==> !cell.host_pointer_import,
        copies <==> !(placement.route is DirectAlias),
        working is Some <==> copies,
        working matches Some(class) ==> (class is DeviceLocalPreferred
            <==> cell.topology is Unified) && (class is DeviceLocal <==> cell.topology is Discrete),
{
}

/// No two modes, fits or routes share a name.
pub proof fn law_names_stay_distinct(
    a: StorageMode,
    b: StorageMode,
    x: DirectFit,
    y: DirectFit,
    p: Route,
    q: Route,
)
    ensures
        a.name_text() == b.name_text() ==> a == b,
        x.name_text() == y.name_text() ==> x == y,
        p.name_text() == q.name_text() ==> (p is DirectAlias <==> q is DirectAlias) && (
        p is ImportedTransfer <==> q is ImportedTransfer) && (p is HostStaging
            <==> q is HostStaging),
{
    reveal_strlit("shared");
    reveal_strlit("managed");
    reveal_strlit("private");
    reveal_strlit("exact");
    reveal_strlit("linear_buffer");
    reveal_strlit("tiling_differs");
    reveal_strlit("layout_differs");
    reveal_strlit("usage_unavailable");
    reveal_strlit("direct_alias");
    reveal_strlit("imported_transfer");
    reveal_strlit("host_staging");
    assert("exact"@.len() == 5 && "linear_buffer"@.len() == 13 && "tiling_differs"@.len() == 14
        && "layout_differs"@.len() == 14 && "usage_unavailable"@.len() == 17);
    assert("managed"@[0] != "private"@[0]);
    assert("tiling_differs"@[0] != "layout_differs"@[0]);
    assert("direct_alias"@[0] != "host_staging"@[0]);
}

/// A storage mode is called what the guest calls it.
pub proof fn law_a_mode_is_called_by_its_name(value: StorageMode, name: &'static str)
    requires
        call_ensures(StorageMode::name, (value,), name),
    ensures
        value is Shared ==> name@ == "shared"@,
        value is Managed ==> name@ == "managed"@,
        value is Private ==> name@ == "private"@,
{
}

/// A fit is called by what it found.
pub proof fn law_a_fit_is_called_by_its_name(value: DirectFit, name: &'static str)
    requires
        call_ensures(DirectFit::name, (value,), name),
    ensures
        value is Exact ==> name@ == "exact"@,
        value is LinearBuffer ==> name@ == "linear_buffer"@,
        value is TilingDiffers ==> name@ == "tiling_differs"@,
        value is LayoutDiffers ==> name@ == "layout_differs"@,
        value is UsageUnavailable ==> name@ == "usage_unavailable"@,
{
}

/// A route is called by what is done with the bytes.
pub proof fn law_a_route_is_called_by_its_name(value: Route, name: &'static str)
    requires
        call_ensures(Route::name, (value,), name),
    ensures
        value is DirectAlias ==> name@ == "direct_alias"@,
        value is ImportedTransfer ==> name@ == "imported_transfer"@,
        value is HostStaging ==> name@ == "host_staging"@,
{
}

/// A placement's line gives its route, its mode, its fit and its host's memory
/// by the names they go by, and whether the host imports.
pub proof fn law_a_placements_line_names_its_parts(
    placement: Placement,
    line: String,
    route: &'static str,
    mode: &'static str,
    fit: &'static str,
    topology: &'static str,
)
    requires
        call_ensures(Placement::census, (&placement,), line),
        call_ensures(Route::name, (placement.route,), route),
        call_ensures(StorageMode::name, (placement.mode,), mode),
        call_ensures(DirectFit::name, (placement.fit,), fit),
        call_ensures(MemoryTopology::slug, (placement.cell.topology,), topology),
    ensures
        line@ == "vk_placement route="@ + route@ + " mode="@ + mode@ + " fit="@ + fit@
            + " topology="@ + topology@ + " import="@ + seq![
            if placement.cell.host_pointer_import {
                '1'
            } else {
                '0'
            },
        ],
{
}

} // verus!
