//! The capability catalog: what a physical device reported, and the floor it
//! has to clear to serve this rail.
//!
//! Admission is entirely capability-driven. A device that fails it is refused
//! with the fact it was missing, and one that clears it is described by the
//! cells the planning modules read.

use crate::barrier::StageSupport;
use crate::blend::BlendCell;
use crate::buffer::BufferLimits;
use crate::depth_stencil::DepthStencilCell;
use crate::descriptor::DescriptorCell;
use crate::memory::MemoryTopology;
use crate::pass::PassCell;
use crate::placement::HostCell;
use crate::queues::{
    chosen, law_first_is_the_first, law_the_chosen_family_draws, Decline, Family, QueueChoice,
};
use crate::raster::{LineWidthCell, RasterCell, ViewportCell};
use crate::text::{decimal, push_decimal, push_signed, push_text, signed};
use vstd::prelude::*;

pub mod extension;

verus! {

/// `ash::vk::api_version_major`: the seven bits above the minor version.
pub assume_specification[ ash::vk::api_version_major ](version: u32) -> (major: u32)
    ensures
        major == (version >> 22) & 0x7f,
;

/// `ash::vk::api_version_minor`: the ten bits above the patch version.
pub assume_specification[ ash::vk::api_version_minor ](version: u32) -> (minor: u32)
    ensures
        minor == (version >> 12) & 0x3ff,
;

/// `ash::vk::make_api_version`: the four parts, each shifted to its place.
pub assume_specification[ ash::vk::make_api_version ](
    variant: u32,
    major: u32,
    minor: u32,
    patch: u32,
) -> (version: u32)
    ensures
        version == (variant << 29) | (major << 22) | (minor << 12) | patch,
;

/// A Vulkan API version, as far as capability goes.
#[derive(Clone, Copy, Debug, PartialEq, Eq, Structural)]
pub struct ApiVersion {
    pub major: u32,
    pub minor: u32,
}

impl ApiVersion {
    /// The version in a packed word.
    pub open spec fn unpacked(packed: u32) -> ApiVersion {
        ApiVersion { major: (packed >> 22) & 0x7f, minor: (packed >> 12) & 0x3ff }
    }

    /// The word for a version with no variant and no patch.
    pub open spec fn packed(self) -> u32 {
        (0u32 << 29) | (self.major << 22) | (self.minor << 12) | 0
    }

    /// The version is this one or a later one.
    pub open spec fn reaches(self, major: u32, minor: u32) -> bool {
        self.major > major || (self.major == major && self.minor >= minor)
    }

    /// The version in a packed word.
    #[must_use]
    pub fn decode(packed: u32) -> (version: Self)
        ensures
            version == ApiVersion::unpacked(packed),
    {
        ApiVersion {
            major: ash::vk::api_version_major(packed),
            minor: ash::vk::api_version_minor(packed),
        }
    }

    /// The word for this version, with no variant and no patch.
    #[must_use]
    pub fn encode(self) -> (word: u32)
        ensures
            word == self.packed(),
    {
        ash::vk::make_api_version(0, self.major, self.minor, 0)
    }

    /// Whether this version is `major.minor` or later.
    #[must_use]
    pub fn at_least(self, major: u32, minor: u32) -> (reaches: bool)
        ensures
            reaches == self.reaches(major, minor),
    {
        self.major > major || (self.major == major && self.minor >= minor)
    }

    /// The version as `major.minor`.
    pub open spec fn text(self) -> Seq<char> {
        decimal(self.major as nat) + "."@ + decimal(self.minor as nat)
    }

    /// Append the version as `major.minor`.
    pub fn push(self, out: &mut String)
        ensures
            final(out)@ == old(out)@ + self.text(),
    {
        push_decimal(out, self.major as u64);
        push_text(out, ".");
        push_decimal(out, self.minor as u64);
        assert(out@ =~= old(out)@ + self.text());
    }
}

/// Packing a version and unpacking it gives it back.
pub proof fn law_a_version_survives_packing(version: ApiVersion)
    requires
        version.major < 128,
        version.minor < 1024,
    ensures
        ApiVersion::unpacked(version.packed()) == version,
{
    let major = version.major;
    let minor = version.minor;
    let word = version.packed();
    assert((word >> 22) & 0x7f == major && (word >> 12) & 0x3ff == minor) by (bit_vector)
        requires
            word == (0u32 << 29) | (major << 22) | (minor << 12) | 0u32,
            major < 128,
            minor < 1024,
    ;
}

/// What a device is missing.
#[derive(Clone, Copy, Debug, PartialEq, Eq, Structural)]
pub enum Floor {
    /// The device could not say which extensions it has. Carries the raw
    /// `VkResult`.
    Unenumerable { result: i32 },
    /// The usable version is below the baseline.
    ApiTooOld { reported: ApiVersion },
    /// The device has no timeline semaphores.
    NoTimelineSemaphores { reported: ApiVersion },
    /// The device cannot present.
    NoSwapchain,
    /// The device has no queue family that draws.
    NoGraphicsFamily { families: usize },
}

impl Floor {
    /// The slug of each floor.
    pub open spec fn slug_text(self) -> Seq<char> {
        match self {
            Floor::Unenumerable { .. } => "vk_census_unenumerable"@,
            Floor::ApiTooOld { .. } => "vk_census_api_too_old"@,
            Floor::NoTimelineSemaphores { .. } => "vk_census_no_timeline_semaphores"@,
            Floor::NoSwapchain => "vk_census_no_swapchain"@,
            Floor::NoGraphicsFamily { .. } => "vk_census_no_graphics_family"@,
        }
    }

    /// The floor's slug.
    #[must_use]
    pub fn slug(self) -> (slug: &'static str)
        ensures
            slug@ == self.slug_text(),
    {
        match self {
            Floor::Unenumerable { .. } => "vk_census_unenumerable",
            Floor::ApiTooOld { .. } => "vk_census_api_too_old",
            Floor::NoTimelineSemaphores { .. } => "vk_census_no_timeline_semaphores",
            Floor::NoSwapchain => "vk_census_no_swapchain",
            Floor::NoGraphicsFamily { .. } => "vk_census_no_graphics_family",
        }
    }

    /// The floor with what the device reported.
    pub open spec fn message_text(self) -> Seq<char> {
        self.slug_text() + match self {
            Floor::Unenumerable { result } => " result="@ + signed(result as int),
            Floor::ApiTooOld { reported } => " reported="@ + reported.text(),
            Floor::NoTimelineSemaphores { reported } => " reported="@ + reported.text(),
            Floor::NoSwapchain => Seq::<char>::empty(),
            Floor::NoGraphicsFamily { families } => " families="@ + decimal(families as nat),
        }
    }

    /// Append the floor with what the device reported.
    pub fn push(self, out: &mut String)
        ensures
            final(out)@ == old(out)@ + self.message_text(),
    {
        push_text(out, self.slug());
        match self {
            Floor::Unenumerable { result } => {
                push_text(out, " result=");
                push_signed(out, result as i64);
            },
            Floor::ApiTooOld { reported } | Floor::NoTimelineSemaphores { reported } => {
                push_text(out, " reported=");
                reported.push(out);
            },
            Floor::NoSwapchain => {},
            Floor::NoGraphicsFamily { families } => {
                push_text(out, " families=");
                push_decimal(out, families as u64);
            },
        }
        assert(out@ =~= old(out)@ + self.message_text());
    }
}

/// The facts a physical device reported. Floats are the bit patterns of
/// singles.
#[derive(Clone, Copy, Debug, PartialEq, Eq, Structural)]
pub struct Reported {
    /// The usable version: the lesser of the device's and the instance's.
    pub api_version: u32,
    pub swapchain: bool,
    pub timeline_semaphore: bool,
    pub synchronization2: bool,
    pub dynamic_rendering: bool,
    pub depth_clamp: bool,
    pub fill_mode_non_solid: bool,
    pub wide_lines: bool,
    pub min_line_width: u32,
    pub max_line_width: u32,
    pub multi_viewport: bool,
    pub max_viewports: u32,
    pub sampler_anisotropy: bool,
    pub max_sampler_anisotropy: u32,
    pub extended_dynamic_state: bool,
    /// `None` where the device was not asked.
    pub dynamic_primitive_topology_unrestricted: Option<bool>,
    pub extended_dynamic_state3_polygon_mode: bool,
    pub extended_dynamic_state3_depth_clamp_enable: bool,
    pub vertex_attribute_instance_rate_divisor: bool,
    pub vertex_attribute_instance_rate_zero_divisor: bool,
    pub max_vertex_attrib_divisor: u32,
    /// One bit for each vertex format, set where the device reads it.
    pub vertex_formats: u64,
    pub dual_src_blend: bool,
    pub independent_blend: bool,
    pub sampler_mirror_clamp_to_edge: bool,
    pub mesh_shader: bool,
    pub descriptor_buffer: bool,
    pub push_descriptor: bool,
    pub max_push_descriptors: u32,
    /// `None` where the device was not asked.
    pub max_buffer_size: Option<u64>,
    pub host_pointer_importable: bool,
    pub min_imported_host_pointer_alignment: u64,
    pub topology: MemoryTopology,
}

/// What a device is missing, if it is missing anything: the version is looked
/// at first, then timeline semaphores, presentation, and a family that draws.
pub open spec fn floor(reported: Reported, families: Seq<Family>) -> Option<Floor> {
    let api = ApiVersion::unpacked(reported.api_version);
    if !api.reaches(1, 2) {
        Some(Floor::ApiTooOld { reported: api })
    } else if !reported.timeline_semaphore {
        Some(Floor::NoTimelineSemaphores { reported: api })
    } else if !reported.swapchain {
        Some(Floor::NoSwapchain)
    } else if chosen(families) is None {
        Some(Floor::NoGraphicsFamily { families: families.len() as usize })
    } else {
        None
    }
}

/// A device that cleared the floor: what it reported, and the queue family it
/// is submitted to through.
#[derive(Clone, Copy, Debug, PartialEq, Eq, Structural)]
pub struct Census {
    reported: Reported,
    queues: QueueChoice,
}

impl Census {
    /// What the device reported.
    pub closed spec fn facts(self) -> Reported {
        self.reported
    }

    /// The queue family chosen on it.
    pub closed spec fn family(self) -> QueueChoice {
        self.queues
    }

    /// Admit a device, or name the floor it failed.
    pub fn take(reported: Reported, families: &[Family]) -> (census: Result<Census, Floor>)
        ensures
            match floor(reported, families@) {
                Some(floor) => census == Err::<Census, Floor>(floor),
                None => census is Ok && census->Ok_0.facts() == reported
                    && census->Ok_0.family().is_choice_from(families@),
            },
    {
        let api = ApiVersion::decode(reported.api_version);
        if !api.at_least(1, 2) {
            return Err(Floor::ApiTooOld { reported: api });
        }
        if !reported.timeline_semaphore {
            return Err(Floor::NoTimelineSemaphores { reported: api });
        }
        if !reported.swapchain {
            return Err(Floor::NoSwapchain);
        }
        match QueueChoice::from_families(families) {
            Ok(queues) => Ok(Census { reported, queues }),
            Err(Decline::NoGraphicsFamily { families }) => Err(Floor::NoGraphicsFamily { families }),
        }
    }

    /// The usable version.
    #[must_use]
    pub fn api(&self) -> (api: ApiVersion)
        ensures
            api == ApiVersion::unpacked(self.facts().api_version),
    {
        ApiVersion::decode(self.reported.api_version)
    }

    /// The queue family chosen on the device.
    #[must_use]
    pub fn queues(&self) -> (queues: QueueChoice)
        ensures
            queues == self.family(),
    {
        self.queues
    }

    /// Whether the device presents. Every admitted device does.
    #[must_use]
    pub fn can_present(&self) -> (presents: bool)
        ensures
            presents == self.facts().swapchain,
    {
        self.reported.swapchain
    }

    /// Whether `vkCmdPipelineBarrier2` resolves: core from 1.3, and by the
    /// extension's feature below it.
    #[must_use]
    pub fn synchronization2(&self) -> (present: bool)
        ensures
            present == (self.facts().synchronization2 || ApiVersion::unpacked(
                self.facts().api_version,
            ).reaches(1, 3)),
    {
        self.reported.synchronization2 || self.api().at_least(1, 3)
    }

    /// The stages this host can express.
    #[must_use]
    pub fn stages(&self) -> (cell: StageSupport)
        ensures
            cell == (StageSupport { mesh_shader: self.facts().mesh_shader }),
    {
        StageSupport { mesh_shader: self.reported.mesh_shader }
    }

    /// How this host carries a pass: dynamic rendering is core from 1.3.
    #[must_use]
    pub fn passes(&self) -> (cell: PassCell)
        ensures
            cell.dynamic_rendering == (self.facts().dynamic_rendering || ApiVersion::unpacked(
                self.facts().api_version,
            ).reaches(1, 3)),
    {
        PassCell { dynamic_rendering: self.reported.dynamic_rendering || self.api().at_least(1, 3) }
    }

    /// How this host carries descriptors. Nothing has qualified descriptor
    /// buffers on it: reported support is not qualification.
    #[must_use]
    pub fn descriptors(&self) -> (cell: DescriptorCell)
        ensures
            cell == (DescriptorCell {
                push_descriptor: self.facts().push_descriptor,
                max_push_descriptors: self.facts().max_push_descriptors,
                descriptor_buffer: self.facts().descriptor_buffer,
                descriptor_buffer_qualified: false,
            }),
    {
        DescriptorCell {
            push_descriptor: self.reported.push_descriptor,
            max_push_descriptors: self.reported.max_push_descriptors,
            descriptor_buffer: self.reported.descriptor_buffer,
            descriptor_buffer_qualified: false,
        }
    }

    /// Whether the extended dynamic states are there: core from 1.3.
    pub open spec fn dynamic_states(self) -> bool {
        self.facts().extended_dynamic_state || ApiVersion::unpacked(
            self.facts().api_version,
        ).reaches(1, 3)
    }

    /// What this host's rasterizer offers.
    #[must_use]
    pub fn raster(&self) -> (cell: RasterCell)
        ensures
            cell == (RasterCell {
                depth_clamp: self.facts().depth_clamp,
                fill_mode_non_solid: self.facts().fill_mode_non_solid,
                dynamic_cull_and_winding: self.dynamic_states(),
                dynamic_polygon_mode: self.facts().extended_dynamic_state3_polygon_mode,
                dynamic_depth_clamp: self.facts().extended_dynamic_state3_depth_clamp_enable,
            }),
    {
        RasterCell {
            depth_clamp: self.reported.depth_clamp,
            fill_mode_non_solid: self.reported.fill_mode_non_solid,
            dynamic_cull_and_winding: self.reported.extended_dynamic_state || self.api().at_least(
                1,
                3,
            ),
            dynamic_polygon_mode: self.reported.extended_dynamic_state3_polygon_mode,
            dynamic_depth_clamp: self.reported.extended_dynamic_state3_depth_clamp_enable,
        }
    }

    /// Whether this host changes depth-stencil state without a rebuild.
    #[must_use]
    pub fn depth_stencil(&self) -> (cell: DepthStencilCell)
        ensures
            cell == (DepthStencilCell { extended_dynamic_state: self.dynamic_states() }),
    {
        DepthStencilCell {
            extended_dynamic_state: self.reported.extended_dynamic_state || self.api().at_least(
                1,
                3,
            ),
        }
    }

    /// How many viewports one pipeline may declare here.
    #[must_use]
    pub fn viewports(&self) -> (cell: ViewportCell)
        ensures
            cell == (ViewportCell {
                multi_viewport: self.facts().multi_viewport,
                max_viewports: self.facts().max_viewports,
            }),
    {
        ViewportCell {
            multi_viewport: self.reported.multi_viewport,
            max_viewports: self.reported.max_viewports,
        }
    }

    /// The line widths this host draws.
    #[must_use]
    pub fn line_widths(&self) -> (cell: LineWidthCell)
        ensures
            cell.wide_lines == self.facts().wide_lines,
            cell.range@ == seq![self.facts().min_line_width, self.facts().max_line_width],
    {
        let cell = LineWidthCell {
            wide_lines: self.reported.wide_lines,
            range: [self.reported.min_line_width, self.reported.max_line_width],
        };
        assert(cell.range@ =~= seq![self.facts().min_line_width, self.facts().max_line_width]);
        cell
    }

    /// What this host offers for blending.
    #[must_use]
    pub fn blending(&self) -> (cell: BlendCell)
        ensures
            cell == (BlendCell {
                dual_source: self.facts().dual_src_blend,
                independent: self.facts().independent_blend,
            }),
    {
        BlendCell {
            dual_source: self.reported.dual_src_blend,
            independent: self.reported.independent_blend,
        }
    }

    /// How long a buffer this host creates.
    #[must_use]
    pub fn buffers(&self) -> (limits: BufferLimits)
        ensures
            limits.max_buffer_size == self.facts().max_buffer_size,
    {
        BufferLimits { max_buffer_size: self.reported.max_buffer_size }
    }

    /// Where this host places bytes. Guest pages are importable where the
    /// device says the handle type is and states an alignment a pointer can
    /// meet.
    #[must_use]
    pub fn host_cell(&self) -> (cell: HostCell)
        ensures
            cell == (HostCell {
                topology: self.facts().topology,
                host_pointer_import: self.facts().host_pointer_importable
                    && self.facts().min_imported_host_pointer_alignment > 0,
            }),
    {
        HostCell {
            topology: self.reported.topology,
            host_pointer_import: self.reported.host_pointer_importable
                && self.reported.min_imported_host_pointer_alignment > 0,
        }
    }

    /// The catalog in one line.
    pub open spec fn report_text(self) -> Seq<char> {
        "vk_census api="@ + ApiVersion::unpacked(self.facts().api_version).text() + " topology="@
            + self.facts().topology.slug_text() + " universal_family="@ + decimal(
            self.family().family().index as nat,
        )
    }

    /// One line recording the device's capability census. Names no device.
    #[must_use]
    pub fn report_line(&self) -> (text: String)
        ensures
            text@ == self.report_text(),
    {
        let mut text = String::new();
        push_text(&mut text, "vk_census api=");
        self.api().push(&mut text);
        push_text(&mut text, " topology=");
        push_text(&mut text, self.reported.topology.slug());
        push_text(&mut text, " universal_family=");
        push_decimal(&mut text, self.queues.universal().index as u64);
        assert(text@ =~= self.report_text());
        text
    }
}

/// No two floors share a slug, and what a floor says starts with its slug.
pub proof fn law_every_floor_names_itself(a: Floor, b: Floor)
    ensures
        a.slug_text() == b.slug_text() ==> {
            &&& a is Unenumerable <==> b is Unenumerable
            &&& a is ApiTooOld <==> b is ApiTooOld
            &&& a is NoTimelineSemaphores <==> b is NoTimelineSemaphores
            &&& a is NoSwapchain <==> b is NoSwapchain
            &&& a is NoGraphicsFamily <==> b is NoGraphicsFamily
        },
        a.slug_text().is_prefix_of(a.message_text()),
{
    reveal_strlit("vk_census_unenumerable");
    reveal_strlit("vk_census_api_too_old");
    reveal_strlit("vk_census_no_timeline_semaphores");
    reveal_strlit("vk_census_no_swapchain");
    reveal_strlit("vk_census_no_graphics_family");
    assert("vk_census_unenumerable"@[10] != "vk_census_no_swapchain"@[10]);
    assert(a.slug_text() =~= a.message_text().take(a.slug_text().len() as int));
}

/// A packed version is read by place: the minor version from the ten bits above
/// the twelve of the patch, the major from the seven above those. Versions are
/// ordered by major and then by minor.
pub proof fn law_versions_are_read_by_place(
    packed: u32,
    version: ApiVersion,
    major: u32,
    minor: u32,
    reaches: bool,
)
    requires
        call_ensures(ApiVersion::decode, (packed,), version),
        call_ensures(ApiVersion::at_least, (version, major, minor), reaches),
    ensures
        version.major == packed / 0x40_0000 % 128,
        version.minor == packed / 0x1000 % 1024,
        minor < 1024 ==> (reaches <==> version.major * 1024 + version.minor >= major * 1024 + minor),
{
    assert((packed >> 22) & 0x7f == (packed / 0x40_0000) % 128 && (packed >> 12) & 0x3ff == (packed
        / 0x1000) % 1024) by (bit_vector);
}

/// A device is admitted exactly where its usable version is 1.2 or later, it has
/// timeline semaphores, it presents and a family draws. What is missing first is
/// what it is refused for, with what it reported.
pub proof fn law_a_device_is_admitted_on_its_capabilities(
    reported: Reported,
    families: &[Family],
    version: ApiVersion,
    current: bool,
    answer: Result<Census, Floor>,
)
    requires
        call_ensures(ApiVersion::decode, (reported.api_version,), version),
        call_ensures(ApiVersion::at_least, (version, 1, 2), current),
        call_ensures(Census::take, (reported, families), answer),
    ensures
        ({
            let drawing = exists|i: int|
                0 <= i < families@.len() && (#[trigger] families@[i]).draws();
            &&& answer is Ok <==> current && reported.timeline_semaphore && reported.swapchain
                && drawing
            &&& answer matches Ok(census) ==> census.facts() == reported
                && census.family().reported() == families@.len() && census.family().family().draws()
            &&& !current ==> answer == Err::<Census, Floor>(Floor::ApiTooOld { reported: version })
            &&& current && !reported.timeline_semaphore ==> answer == Err::<Census, Floor>(
                Floor::NoTimelineSemaphores { reported: version },
            )
            &&& current && reported.timeline_semaphore && !reported.swapchain ==> answer == Err::<
                Census,
                Floor,
            >(Floor::NoSwapchain)
            &&& current && reported.timeline_semaphore && reported.swapchain && !drawing ==> answer
                == Err::<Census, Floor>(
                Floor::NoGraphicsFamily { families: families@.len() as usize },
            )
        }),
{
    law_the_chosen_family_draws(families@);
    law_first_is_the_first(families@, |f: Family| f.draws() && f.dispatches());
    law_first_is_the_first(families@, |f: Family| f.draws());
    if let Some(family) = chosen(families@) {
        let i = choose|i: int| 0 <= i < families@.len() && families@[i] == family;
        assert(families@[i].draws());
    }
}

/// Each cell a census hands out carries the facts it is named for, and each
/// state that 1.3 made core is there from 1.3 on. Descriptor buffers are never
/// qualified by a report alone, and pages are imported only at an alignment
/// there is.
pub proof fn law_each_cell_carries_its_own_facts(
    census: Census,
    stages: StageSupport,
    passes: PassCell,
    descriptors: DescriptorCell,
    raster: RasterCell,
    depth_stencil: DepthStencilCell,
    viewports: ViewportCell,
    lines: LineWidthCell,
    blending: BlendCell,
    buffers: BufferLimits,
    placement: HostCell,
    modern: bool,
    synchronized: bool,
    version: ApiVersion,
)
    requires
        call_ensures(Census::stages, (&census,), stages),
        call_ensures(Census::passes, (&census,), passes),
        call_ensures(Census::descriptors, (&census,), descriptors),
        call_ensures(Census::raster, (&census,), raster),
        call_ensures(Census::depth_stencil, (&census,), depth_stencil),
        call_ensures(Census::viewports, (&census,), viewports),
        call_ensures(Census::line_widths, (&census,), lines),
        call_ensures(Census::blending, (&census,), blending),
        call_ensures(Census::buffers, (&census,), buffers),
        call_ensures(Census::host_cell, (&census,), placement),
        call_ensures(Census::api, (&census,), version),
        call_ensures(ApiVersion::at_least, (version, 1, 3), modern),
        call_ensures(Census::synchronization2, (&census,), synchronized),
    ensures
        ({
            let facts = census.facts();
            &&& version == ApiVersion::unpacked(facts.api_version)
            &&& synchronized <==> facts.synchronization2 || modern
            &&& stages.mesh_shader == facts.mesh_shader
            &&& passes.dynamic_rendering <==> facts.dynamic_rendering || modern
            &&& descriptors.push_descriptor == facts.push_descriptor
            &&& descriptors.max_push_descriptors == facts.max_push_descriptors
            &&& descriptors.descriptor_buffer == facts.descriptor_buffer
            &&& !descriptors.descriptor_buffer_qualified
            &&& raster.depth_clamp == facts.depth_clamp
            &&& raster.fill_mode_non_solid == facts.fill_mode_non_solid
            &&& raster.dynamic_cull_and_winding <==> facts.extended_dynamic_state || modern
            &&& raster.dynamic_polygon_mode == facts.extended_dynamic_state3_polygon_mode
            &&& raster.dynamic_depth_clamp == facts.extended_dynamic_state3_depth_clamp_enable
            &&& depth_stencil.extended_dynamic_state <==> facts.extended_dynamic_state || modern
            &&& viewports.multi_viewport == facts.multi_viewport
            &&& viewports.max_viewports == facts.max_viewports
            &&& lines.wide_lines == facts.wide_lines
            &&& lines.range[0] == facts.min_line_width
            &&& lines.range[1] == facts.max_line_width
            &&& blending.dual_source == facts.dual_src_blend
            &&& blending.independent == facts.independent_blend
            &&& buffers.max_buffer_size == facts.max_buffer_size
            &&& placement.topology == facts.topology
            &&& placement.host_pointer_import <==> facts.host_pointer_importable
                && facts.min_imported_host_pointer_alignment > 0
        }),
{
    assert(lines.range@[0] == census.facts().min_line_width);
    assert(lines.range@[1] == census.facts().max_line_width);
}

/// A census's line gives the version, the memory and the family it answers for.
pub proof fn law_a_censuss_line_gives_what_it_answers(
    census: Census,
    line: String,
    version: ApiVersion,
    placement: HostCell,
    topology: &'static str,
    choice: QueueChoice,
    universal: Family,
)
    requires
        call_ensures(Census::report_line, (&census,), line),
        call_ensures(Census::api, (&census,), version),
        call_ensures(Census::host_cell, (&census,), placement),
        call_ensures(MemoryTopology::slug, (placement.topology,), topology),
        call_ensures(Census::queues, (&census,), choice),
        call_ensures(QueueChoice::universal, (choice,), universal),
    ensures
        line@ == "vk_census api="@ + decimal(version.major as nat) + "."@ + decimal(
            version.minor as nat,
        ) + " topology="@ + topology@ + " universal_family="@ + decimal(universal.index as nat),
{
    assert(line@ =~= "vk_census api="@ + decimal(version.major as nat) + "."@ + decimal(
        version.minor as nat,
    ) + " topology="@ + topology@ + " universal_family="@ + decimal(universal.index as nat));
}

} // verus!
