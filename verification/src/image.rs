//! What a checked texture declaration becomes on this host: one image plan,
//! and the device query that has to admit it before anything is allocated.
//!
//! [`plan`] turns a [`Texture`] into the exact tuple `vkCreateImage` would
//! take. [`ImagePlan::admitted`] takes what
//! `vkGetPhysicalDeviceImageFormatProperties` reported for exactly that tuple
//! and checks the plan against it. The general limits are the ceiling over all
//! usages and are not the same question.
//!
//! The tiling comes from the route, and nowhere else: a direct alias is the
//! guest's own row-major pages, and every other route allocates memory the
//! device lays out.
//!
//! Metal reads a zero usage as any, and this translates it as such: sampled,
//! storage and attachment together.

use crate::flags::pick_u32;
use crate::pixel::{
    format_has_depth_aspect, format_has_stencil_aspect, holds_depth, holds_stencil, srgb_of,
    srgb_spelling, storage_format, stored_as,
};
use crate::placement::Route;
use crate::text::{decimal, hexadecimal, push_decimal, push_hexadecimal, push_text};
use crate::texture::{Dimensions, Texture, TextureUsage};
use crate::vulkan::{
    image_create, image_usage, Extent3D, Format, ImageCreateFlags, ImageLayout, ImageTiling,
    ImageType, ImageUsageFlags, SampleCountFlags, SharingMode,
};
use vstd::prelude::*;

verus! {

/// Why a texture cannot become an image on this host.
#[derive(Clone, Copy, Debug, PartialEq, Eq)]
pub enum Refusal {
    /// More samples than a `VkSampleCountFlags` bit exists for, or a count that
    /// is no power of two.
    SampleCountUnrepresentable { declared: u32 },
    /// The guest declared shader writes to a depth or stencil format. Vulkan
    /// has no storage image for one.
    DepthShaderWrite { format: u16 },
    /// A dimension larger than this device allows for this exact tuple.
    ExtentBeyondDevice { axis: &'static str, declared: u32, max: u32 },
    MipLevelsBeyondDevice { declared: u32, max: u32 },
    LayersBeyondDevice { declared: u32, max: u32 },
    /// The device supports this tuple, but not at this sample count.
    SampleCountUnsupported { declared: u32, supported: u32 },
}

impl Refusal {
    /// The slug of each refusal.
    pub open spec fn slug_text(self) -> Seq<char> {
        match self {
            Refusal::SampleCountUnrepresentable { .. } => "vk_image_sample_count_unrepresentable"@,
            Refusal::DepthShaderWrite { .. } => "vk_image_depth_shader_write"@,
            Refusal::ExtentBeyondDevice { .. } => "vk_image_extent_beyond_device"@,
            Refusal::MipLevelsBeyondDevice { .. } => "vk_image_mip_levels_beyond_device"@,
            Refusal::LayersBeyondDevice { .. } => "vk_image_layers_beyond_device"@,
            Refusal::SampleCountUnsupported { .. } => "vk_image_sample_count_unsupported"@,
        }
    }

    /// The refusal's slug.
    #[must_use]
    pub fn slug(self) -> (slug: &'static str)
        ensures
            slug@ == self.slug_text(),
    {
        match self {
            Refusal::SampleCountUnrepresentable { .. } => "vk_image_sample_count_unrepresentable",
            Refusal::DepthShaderWrite { .. } => "vk_image_depth_shader_write",
            Refusal::ExtentBeyondDevice { .. } => "vk_image_extent_beyond_device",
            Refusal::MipLevelsBeyondDevice { .. } => "vk_image_mip_levels_beyond_device",
            Refusal::LayersBeyondDevice { .. } => "vk_image_layers_beyond_device",
            Refusal::SampleCountUnsupported { .. } => "vk_image_sample_count_unsupported",
        }
    }

    /// The refusal with its numbers.
    pub open spec fn message_text(self) -> Seq<char> {
        self.slug_text() + match self {
            Refusal::SampleCountUnrepresentable { declared } => " declared="@ + decimal(
                declared as nat,
            ),
            Refusal::DepthShaderWrite { format } => " format="@ + decimal(format as nat),
            Refusal::ExtentBeyondDevice { axis, declared, max } => " axis="@ + axis@ + " declared="@
                + decimal(declared as nat) + " max="@ + decimal(max as nat),
            Refusal::MipLevelsBeyondDevice { declared, max } => " declared="@ + decimal(
                declared as nat,
            ) + " max="@ + decimal(max as nat),
            Refusal::LayersBeyondDevice { declared, max } => " declared="@ + decimal(
                declared as nat,
            ) + " max="@ + decimal(max as nat),
            Refusal::SampleCountUnsupported { declared, supported } => " declared="@ + decimal(
                declared as nat,
            ) + " supported="@ + hexadecimal(supported as nat),
        }
    }

    /// The refusal with its numbers.
    pub fn message(self) -> (text: String)
        ensures
            text@ == self.message_text(),
    {
        let mut text = String::new();
        push_text(&mut text, self.slug());
        match self {
            Refusal::SampleCountUnrepresentable { declared } => {
                push_text(&mut text, " declared=");
                push_decimal(&mut text, declared as u64);
            },
            Refusal::DepthShaderWrite { format } => {
                push_text(&mut text, " format=");
                push_decimal(&mut text, format as u64);
            },
            Refusal::ExtentBeyondDevice { axis, declared, max } => {
                push_text(&mut text, " axis=");
                push_text(&mut text, axis);
                push_text(&mut text, " declared=");
                push_decimal(&mut text, declared as u64);
                push_text(&mut text, " max=");
                push_decimal(&mut text, max as u64);
            },
            Refusal::MipLevelsBeyondDevice { declared, max }
            | Refusal::LayersBeyondDevice { declared, max } => {
                push_text(&mut text, " declared=");
                push_decimal(&mut text, declared as u64);
                push_text(&mut text, " max=");
                push_decimal(&mut text, max as u64);
            },
            Refusal::SampleCountUnsupported { declared, supported } => {
                push_text(&mut text, " declared=");
                push_decimal(&mut text, declared as u64);
                push_text(&mut text, " supported=");
                push_hexadecimal(&mut text, supported as u64);
            },
        }
        assert(text@ =~= self.message_text());
        text
    }
}

/// The tuple `vkGetPhysicalDeviceImageFormatProperties` takes.
///
/// It and the create info have to name the same combination.
#[derive(Clone, Copy, Debug, PartialEq, Eq, Structural)]
pub struct FormatQuery {
    pub format: Format,
    pub image_type: ImageType,
    pub tiling: ImageTiling,
    pub usage: ImageUsageFlags,
    pub flags: ImageCreateFlags,
}

/// A native image, as it would be created, before any device has agreed to it.
#[derive(Clone, Copy, Debug, PartialEq, Eq, Structural)]
#[must_use]
pub struct ImagePlan {
    pub image_type: ImageType,
    pub format: Format,
    pub extent: Extent3D,
    pub mip_levels: u32,
    pub array_layers: u32,
    pub samples: SampleCountFlags,
    pub tiling: ImageTiling,
    pub usage: ImageUsageFlags,
    pub flags: ImageCreateFlags,
}

/// What a device reports for one [`FormatQuery`].
#[derive(Clone, Copy, Debug, PartialEq, Eq, Structural)]
pub struct ImageFormatProperties {
    pub max_extent: Extent3D,
    pub max_mip_levels: u32,
    pub max_array_layers: u32,
    pub sample_counts: SampleCountFlags,
    pub max_resource_size: u64,
}

/// The members of `VkImageCreateInfo` this rail sets.
#[derive(Clone, Copy, Debug, PartialEq, Eq, Structural)]
pub struct ImageCreateInfo {
    pub flags: ImageCreateFlags,
    pub image_type: ImageType,
    pub format: Format,
    pub extent: Extent3D,
    pub mip_levels: u32,
    pub array_layers: u32,
    pub samples: SampleCountFlags,
    pub tiling: ImageTiling,
    pub usage: ImageUsageFlags,
    pub sharing_mode: SharingMode,
    pub initial_layout: ImageLayout,
}

/// A plan one physical device has reported it can satisfy.
///
/// The only thing that carries a create info, so an allocation cannot be made
/// from a plan that skipped the query.
#[derive(Clone, Copy, Debug, PartialEq, Eq, Structural)]
pub struct Admitted {
    plan: ImagePlan,
}

/// Whether a texture's declaration covers `bit`. No declaration covers all of
/// them.
pub open spec fn wants(texture: Texture, bit: u32) -> bool {
    texture.usage.0 == 0 || texture.usage.0 & bit == bit
}

/// Whether a texture holds depth or stencil.
pub open spec fn is_depth_stencil(texture: Texture) -> bool {
    holds_depth(texture.pixel_format) || holds_stencil(texture.pixel_format)
}

/// Whether a texture's declaration names a shader store, under either of its
/// two names.
pub open spec fn declares_store(texture: Texture) -> bool {
    texture.usage.0 != 0 && (texture.usage.0 & TextureUsage::SHADER_WRITE
        == TextureUsage::SHADER_WRITE || texture.usage.0 & TextureUsage::SHADER_ATOMIC
        == TextureUsage::SHADER_ATOMIC)
}

/// Whether a sample count is one Vulkan has a bit for.
pub open spec fn is_sample_bit(count: u32) -> bool {
    count == 1 || count == 2 || count == 4 || count == 8 || count == 16 || count == 32 || count
        == 64
}

/// Why a texture cannot be planned, if it cannot.
pub open spec fn refusal(texture: Texture) -> Option<Refusal> {
    if declares_store(texture) && is_depth_stencil(texture) {
        Some(Refusal::DepthShaderWrite { format: texture.pixel_format })
    } else if !is_sample_bit(texture.sample_count) {
        Some(Refusal::SampleCountUnrepresentable { declared: texture.sample_count })
    } else {
        None
    }
}

/// The usages a texture's image needs. Transfers unconditionally: the guest's
/// bytes reach every texture through one. A depth or stencil format has no
/// storage image on any host.
pub open spec fn usage_of(texture: Texture) -> ImageUsageFlags {
    image_usage::TRANSFER_SRC | image_usage::TRANSFER_DST | pick_u32(
        wants(texture, TextureUsage::SHADER_READ),
        image_usage::SAMPLED,
    ) | pick_u32(
        (wants(texture, TextureUsage::SHADER_WRITE) || wants(texture, TextureUsage::SHADER_ATOMIC))
            && !is_depth_stencil(texture),
        image_usage::STORAGE,
    ) | pick_u32(
        wants(texture, TextureUsage::RENDER_TARGET),
        if is_depth_stencil(texture) {
            image_usage::DEPTH_STENCIL_ATTACHMENT
        } else {
            image_usage::COLOR_ATTACHMENT
        },
    )
}

/// Whether a view of a second spelling may be made over an image of `format`.
pub open spec fn reinterpretable(format: Format) -> bool {
    srgb_of(format) matches Some(srgb) && srgb != stored_as(format)
}

/// What a texture's image may be viewed as: a cube, another format, a slice of
/// a volume.
pub open spec fn flags_of(texture: Texture, format: Format) -> ImageCreateFlags {
    pick_u32(texture.kind.has_faces(), image_create::CUBE_COMPATIBLE) | pick_u32(
        wants(texture, TextureUsage::PIXEL_FORMAT_VIEW) || reinterpretable(format),
        image_create::MUTABLE_FORMAT,
    ) | pick_u32(
        texture.kind.axes() is Three && wants(texture, TextureUsage::RENDER_TARGET),
        image_create::TYPE_2D_ARRAY_COMPATIBLE,
    )
}

/// The image a texture becomes.
pub open spec fn planned(texture: Texture, format: Format, route: Route) -> ImagePlan {
    ImagePlan {
        image_type: match texture.kind.axes() {
            Dimensions::One => ImageType::OneDimensional,
            Dimensions::Two => ImageType::TwoDimensional,
            Dimensions::Three => ImageType::ThreeDimensional,
        },
        format,
        extent: Extent3D {
            width: texture.width,
            height: texture.height,
            depth: texture.depth,
        },
        mip_levels: texture.mipmap_level_count,
        array_layers: texture.slices() as u32,
        samples: texture.sample_count,
        tiling: if route is DirectAlias {
            ImageTiling::Linear
        } else {
            ImageTiling::Optimal
        },
        usage: usage_of(texture),
        flags: flags_of(texture, format),
    }
}

/// Turn a checked texture into the image this host would create for it.
///
/// Refuses the two facts a declaration can carry that no Vulkan image can
/// express. A format with a second spelling is mutable whatever the guest
/// declared, because this rail samples one surface through both spellings. A
/// volume declared as a target can have its slices attached.
pub fn plan(texture: Texture, format: Format, route: Route) -> (plan: Result<ImagePlan, Refusal>)
    requires
        texture.wf(),
    ensures
        plan == match refusal(texture) {
            Some(refused) => Err::<ImagePlan, Refusal>(refused),
            None => Ok(planned(texture, format, route)),
        },
{
    let kind = texture.kind;
    let guest_format: u16 = texture.pixel_format;
    let depth_stencil = format_has_depth_aspect(guest_format) || format_has_stencil_aspect(
        guest_format,
    );
    let declared = texture.usage;
    let any = declared.is_unknown();
    let stores = declared.contains(TextureUsage::SHADER_WRITE) || declared.contains(
        TextureUsage::SHADER_ATOMIC,
    );
    if !any && stores && depth_stencil {
        return Err(Refusal::DepthShaderWrite { format: guest_format });
    }
    let sampled: u32 = if any || declared.contains(TextureUsage::SHADER_READ) {
        image_usage::SAMPLED
    } else {
        0
    };
    let storage: u32 = if (any || stores) && !depth_stencil {
        image_usage::STORAGE
    } else {
        0
    };
    let target = any || declared.contains(TextureUsage::RENDER_TARGET);
    let attachment: u32 = if !target {
        0
    } else if depth_stencil {
        image_usage::DEPTH_STENCIL_ATTACHMENT
    } else {
        image_usage::COLOR_ATTACHMENT
    };
    let usage: u32 = image_usage::TRANSFER_SRC | image_usage::TRANSFER_DST | sampled | storage
        | attachment;

    let cube: u32 = if kind.is_cube() {
        image_create::CUBE_COMPATIBLE
    } else {
        0
    };
    let second_spelling = match srgb_spelling(format) {
        Some(srgb) => srgb != storage_format(format),
        None => false,
    };
    let mutable: u32 = if any || declared.contains(TextureUsage::PIXEL_FORMAT_VIEW)
        || second_spelling {
        image_create::MUTABLE_FORMAT
    } else {
        0
    };
    let dimensions = kind.dimensions();
    let sliced: u32 = if dimensions == Dimensions::Three && target {
        image_create::TYPE_2D_ARRAY_COMPATIBLE
    } else {
        0
    };
    let flags: u32 = cube | mutable | sliced;

    let samples: u32 = match sample_flags(texture.sample_count) {
        Ok(samples) => samples,
        Err(refused) => {
            return Err(refused);
        },
    };
    Ok(
        ImagePlan {
            image_type: match dimensions {
                Dimensions::One => ImageType::OneDimensional,
                Dimensions::Two => ImageType::TwoDimensional,
                Dimensions::Three => ImageType::ThreeDimensional,
            },
            format,
            extent: Extent3D {
                width: texture.width,
                height: texture.height,
                depth: texture.depth,
            },
            mip_levels: texture.mipmap_level_count,
            array_layers: texture.layers(),
            samples,
            tiling: match route {
                Route::DirectAlias => ImageTiling::Linear,
                Route::ImportedTransfer { .. } | Route::HostStaging { .. } => ImageTiling::Optimal,
            },
            usage,
            flags,
        },
    )
}

/// The `VkSampleCountFlags` bit for a sample count.
///
/// The bit values are the counts, so this is an identity with a bound.
pub fn sample_flags(count: u32) -> (samples: Result<SampleCountFlags, Refusal>)
    ensures
        samples == if is_sample_bit(count) {
            Ok::<SampleCountFlags, Refusal>(count)
        } else {
            Err(Refusal::SampleCountUnrepresentable { declared: count })
        },
{
    if matches!(count, 1 | 2 | 4 | 8 | 16 | 32 | 64) {
        Ok(count)
    } else {
        Err(Refusal::SampleCountUnrepresentable { declared: count })
    }
}

/// The limit a plan exceeds, if it exceeds one: extent first, then mips, then
/// layers, then samples.
pub open spec fn exceeds(plan: ImagePlan, reported: ImageFormatProperties) -> Option<Refusal> {
    if plan.extent.width > reported.max_extent.width {
        Some(
            Refusal::ExtentBeyondDevice {
                axis: "width",
                declared: plan.extent.width,
                max: reported.max_extent.width,
            },
        )
    } else if plan.extent.height > reported.max_extent.height {
        Some(
            Refusal::ExtentBeyondDevice {
                axis: "height",
                declared: plan.extent.height,
                max: reported.max_extent.height,
            },
        )
    } else if plan.extent.depth > reported.max_extent.depth {
        Some(
            Refusal::ExtentBeyondDevice {
                axis: "depth",
                declared: plan.extent.depth,
                max: reported.max_extent.depth,
            },
        )
    } else if plan.mip_levels > reported.max_mip_levels {
        Some(
            Refusal::MipLevelsBeyondDevice {
                declared: plan.mip_levels,
                max: reported.max_mip_levels,
            },
        )
    } else if plan.array_layers > reported.max_array_layers {
        Some(
            Refusal::LayersBeyondDevice {
                declared: plan.array_layers,
                max: reported.max_array_layers,
            },
        )
    } else if reported.sample_counts & plan.samples != plan.samples {
        Some(
            Refusal::SampleCountUnsupported {
                declared: plan.samples,
                supported: reported.sample_counts,
            },
        )
    } else {
        None
    }
}

impl ImagePlan {
    /// The tuple of a plan.
    pub open spec fn queried(self) -> FormatQuery {
        FormatQuery {
            format: self.format,
            image_type: self.image_type,
            tiling: self.tiling,
            usage: self.usage,
            flags: self.flags,
        }
    }

    /// The tuple to query this device with.
    #[must_use]
    pub fn query(&self) -> (query: FormatQuery)
        ensures
            query == self.queried(),
    {
        FormatQuery {
            format: self.format,
            image_type: self.image_type,
            tiling: self.tiling,
            usage: self.usage,
            flags: self.flags,
        }
    }

    /// Check the plan against what the device reported for [`Self::query`].
    ///
    /// Refuses naming the one limit the plan exceeded, with both numbers,
    /// outermost first.
    pub fn admitted(self, reported: ImageFormatProperties) -> (admitted: Result<Admitted, Refusal>)
        ensures
            match exceeds(self, reported) {
                Some(refused) => admitted == Err::<Admitted, Refusal>(refused),
                None => admitted is Ok && admitted->Ok_0.of() == self,
            },
    {
        if self.extent.width > reported.max_extent.width {
            return Err(
                Refusal::ExtentBeyondDevice {
                    axis: "width",
                    declared: self.extent.width,
                    max: reported.max_extent.width,
                },
            );
        }
        if self.extent.height > reported.max_extent.height {
            return Err(
                Refusal::ExtentBeyondDevice {
                    axis: "height",
                    declared: self.extent.height,
                    max: reported.max_extent.height,
                },
            );
        }
        if self.extent.depth > reported.max_extent.depth {
            return Err(
                Refusal::ExtentBeyondDevice {
                    axis: "depth",
                    declared: self.extent.depth,
                    max: reported.max_extent.depth,
                },
            );
        }
        if self.mip_levels > reported.max_mip_levels {
            return Err(
                Refusal::MipLevelsBeyondDevice {
                    declared: self.mip_levels,
                    max: reported.max_mip_levels,
                },
            );
        }
        if self.array_layers > reported.max_array_layers {
            return Err(
                Refusal::LayersBeyondDevice {
                    declared: self.array_layers,
                    max: reported.max_array_layers,
                },
            );
        }
        if reported.sample_counts & self.samples != self.samples {
            return Err(
                Refusal::SampleCountUnsupported {
                    declared: self.samples,
                    supported: reported.sample_counts,
                },
            );
        }
        Ok(Admitted { plan: self })
    }
}

impl Admitted {
    /// The plan that was admitted.
    pub closed spec fn of(self) -> ImagePlan {
        self.plan
    }

    /// The plan that was admitted.
    #[must_use]
    pub fn plan(&self) -> (plan: &ImagePlan)
        ensures
            *plan == self.of(),
    {
        &self.plan
    }

    /// The create info of an admitted plan.
    pub open spec fn info(self) -> ImageCreateInfo {
        let plan = self.of();
        ImageCreateInfo {
            flags: plan.flags,
            image_type: plan.image_type,
            format: plan.format,
            extent: plan.extent,
            mip_levels: plan.mip_levels,
            array_layers: plan.array_layers,
            samples: plan.samples,
            tiling: plan.tiling,
            usage: plan.usage,
            sharing_mode: SharingMode::Exclusive,
            initial_layout: ImageLayout::Undefined,
        }
    }

    /// The create info for this plan.
    ///
    /// `EXCLUSIVE` because one queue family owns every image on this rail, and
    /// `UNDEFINED` because no freshly allocated image holds texels.
    #[must_use]
    pub fn create_info(&self) -> (info: ImageCreateInfo)
        ensures
            info == self.info(),
    {
        ImageCreateInfo {
            flags: self.plan.flags,
            image_type: self.plan.image_type,
            format: self.plan.format,
            extent: self.plan.extent,
            mip_levels: self.plan.mip_levels,
            array_layers: self.plan.array_layers,
            samples: self.plan.samples,
            tiling: self.plan.tiling,
            usage: self.plan.usage,
            sharing_mode: SharingMode::Exclusive,
            initial_layout: ImageLayout::Undefined,
        }
    }
}

/// The route alone decides the tiling, and only a direct alias is linear.
pub proof fn law_only_a_direct_alias_is_linear(
    texture: Texture,
    other: Texture,
    format: Format,
    route: Route,
)
    ensures
        planned(texture, format, route).tiling == ImageTiling::Linear <==> route is DirectAlias,
        planned(texture, format, route).tiling == planned(other, format, route).tiling,
{
}

/// A volume has a depth and one layer for each element, and a cube six layers
/// for each.
pub proof fn law_a_cube_has_six_layers_for_each_element(
    texture: Texture,
    format: Format,
    route: Route,
)
    requires
        texture.wf(),
    ensures
        planned(texture, format, route).array_layers == if texture.kind.has_faces() {
            6 * texture.array_length
        } else {
            texture.array_length as int
        },
        planned(texture, format, route).extent.depth == texture.depth,
{
}

/// The create info of an admitted plan names exactly the combination that was
/// queried.
pub proof fn law_the_query_names_what_is_created(admitted: Admitted)
    ensures
        ({
            let info = admitted.info();
            admitted.of().queried() == (FormatQuery {
                format: info.format,
                image_type: info.image_type,
                tiling: info.tiling,
                usage: info.usage,
                flags: info.flags,
            })
        }),
{
}

/// A device admits exactly the plans within every limit it reported.
pub proof fn law_admitted_means_within_every_limit(
    plan: ImagePlan,
    reported: ImageFormatProperties,
)
    ensures
        exceeds(plan, reported) is None <==> {
            &&& plan.extent.width <= reported.max_extent.width
            &&& plan.extent.height <= reported.max_extent.height
            &&& plan.extent.depth <= reported.max_extent.depth
            &&& plan.mip_levels <= reported.max_mip_levels
            &&& plan.array_layers <= reported.max_array_layers
            &&& reported.sample_counts & plan.samples == plan.samples
        },
{
}

/// Each declared usage becomes its own capability and no other, every texture
/// can be copied both ways, and a depth or stencil format never asks for a
/// storage image.
pub proof fn law_each_usage_becomes_its_own_capability(texture: Texture)
    ensures
        ({
            let usage = usage_of(texture);
            let target = wants(texture, TextureUsage::RENDER_TARGET);
            &&& usage & image_usage::TRANSFER_SRC != 0
            &&& usage & image_usage::TRANSFER_DST != 0
            &&& usage & image_usage::SAMPLED != 0 <==> wants(texture, TextureUsage::SHADER_READ)
            &&& usage & image_usage::STORAGE != 0 <==> (wants(texture, TextureUsage::SHADER_WRITE)
                || wants(texture, TextureUsage::SHADER_ATOMIC)) && !is_depth_stencil(texture)
            &&& usage & image_usage::COLOR_ATTACHMENT != 0 <==> target && !is_depth_stencil(texture)
            &&& usage & image_usage::DEPTH_STENCIL_ATTACHMENT != 0 <==> target && is_depth_stencil(
                texture,
            )
            &&& usage <= 0x3f
        }),
{
    let sampled = pick_u32(wants(texture, TextureUsage::SHADER_READ), image_usage::SAMPLED);
    let storage = pick_u32(
        (wants(texture, TextureUsage::SHADER_WRITE) || wants(texture, TextureUsage::SHADER_ATOMIC))
            && !is_depth_stencil(texture),
        image_usage::STORAGE,
    );
    let attachment = pick_u32(
        wants(texture, TextureUsage::RENDER_TARGET),
        if is_depth_stencil(texture) {
            image_usage::DEPTH_STENCIL_ATTACHMENT
        } else {
            image_usage::COLOR_ATTACHMENT
        },
    );
    let usage = usage_of(texture);
    assert(usage & 1u32 != 0 && usage & 2u32 != 0 && (usage & 4u32 != 0 <==> sampled == 4u32) && (
    usage & 8u32 != 0 <==> storage == 8u32) && (usage & 0x10u32 != 0 <==> attachment == 0x10u32)
        && (usage & 0x20u32 != 0 <==> attachment == 0x20u32) && usage <= 0x3fu32) by (bit_vector)
        requires
            usage == 1u32 | 2u32 | sampled | storage | attachment,
            sampled == 0u32 || sampled == 4u32,
            storage == 0u32 || storage == 8u32,
            attachment == 0u32 || attachment == 0x10u32 || attachment == 0x20u32,
    ;
}

/// A cube is a flag and never an image type, a second spelling makes an image
/// mutable whatever the guest declared, and only a volume declared as a target
/// has its slices attached.
pub proof fn law_each_flag_has_its_own_reason(texture: Texture, format: Format)
    ensures
        ({
            let flags = flags_of(texture, format);
            &&& flags & image_create::CUBE_COMPATIBLE != 0 <==> texture.kind.has_faces()
            &&& flags & image_create::MUTABLE_FORMAT != 0 <==> wants(
                texture,
                TextureUsage::PIXEL_FORMAT_VIEW,
            ) || srgb_of(format) is Some
            &&& flags & image_create::TYPE_2D_ARRAY_COMPATIBLE != 0 <==> texture.kind.axes() is Three
                && wants(texture, TextureUsage::RENDER_TARGET)
            &&& flags <= 0x38
        }),
{
    crate::pixel::law_spellings_come_in_pairs(format);
    let cube = pick_u32(texture.kind.has_faces(), image_create::CUBE_COMPATIBLE);
    let mutable = pick_u32(
        wants(texture, TextureUsage::PIXEL_FORMAT_VIEW) || reinterpretable(format),
        image_create::MUTABLE_FORMAT,
    );
    let sliced = pick_u32(
        texture.kind.axes() is Three && wants(texture, TextureUsage::RENDER_TARGET),
        image_create::TYPE_2D_ARRAY_COMPATIBLE,
    );
    let flags = flags_of(texture, format);
    assert((flags & 0x10u32 != 0 <==> cube == 0x10u32) && (flags & 8u32 != 0 <==> mutable == 8u32)
        && (flags & 0x20u32 != 0 <==> sliced == 0x20u32) && flags <= 0x38u32) by (bit_vector)
        requires
            flags == cube | mutable | sliced,
            cube == 0u32 || cube == 0x10u32,
            mutable == 0u32 || mutable == 8u32,
            sliced == 0u32 || sliced == 0x20u32,
    ;
}

/// No two refusals share a slug, and what a refusal says starts with its slug.
pub proof fn law_every_refusal_names_itself(a: Refusal, b: Refusal)
    ensures
        a.slug_text() == b.slug_text() ==> {
            &&& a is SampleCountUnrepresentable <==> b is SampleCountUnrepresentable
            &&& a is DepthShaderWrite <==> b is DepthShaderWrite
            &&& a is ExtentBeyondDevice <==> b is ExtentBeyondDevice
            &&& a is MipLevelsBeyondDevice <==> b is MipLevelsBeyondDevice
            &&& a is LayersBeyondDevice <==> b is LayersBeyondDevice
            &&& a is SampleCountUnsupported <==> b is SampleCountUnsupported
        },
        a.slug_text().is_prefix_of(a.message_text()),
{
    reveal_strlit("vk_image_sample_count_unrepresentable");
    reveal_strlit("vk_image_depth_shader_write");
    reveal_strlit("vk_image_extent_beyond_device");
    reveal_strlit("vk_image_mip_levels_beyond_device");
    reveal_strlit("vk_image_layers_beyond_device");
    reveal_strlit("vk_image_sample_count_unsupported");
    assert("vk_image_extent_beyond_device"@[9] != "vk_image_layers_beyond_device"@[9]);
    assert("vk_image_mip_levels_beyond_device"@[9] != "vk_image_sample_count_unsupported"@[9]);
    assert(a.slug_text() =~= a.message_text().take(a.slug_text().len() as int));
}

/// Whether a texture was declared for a usage, or for none in particular.
pub open spec fn declared_for(texture: Texture, bit: u32) -> bool {
    texture.usage.0 == 0 || texture.usage.0 & bit == bit
}

/// A planned image is the declared texture: as wide, as high and as deep, with
/// as many levels, as many samples and a layer for each slice, in the format
/// asked for and of the type its kind has.
pub proof fn law_a_planned_image_is_the_declared_texture(
    texture: Texture,
    format: Format,
    route: Route,
    made: ImagePlan,
)
    requires
        texture.wf(),
        call_ensures(plan, (texture, format, route), Ok::<ImagePlan, Refusal>(made)),
    ensures
        made.extent.width == texture.width,
        made.extent.height == texture.height,
        made.extent.depth == texture.depth,
        made.mip_levels == texture.mipmap_level_count,
        made.samples == texture.sample_count,
        made.format == format,
        made.array_layers == if texture.kind is Cube || texture.kind is CubeArray {
            6 * texture.array_length
        } else {
            texture.array_length as int
        },
        made.image_type is OneDimensional <==> texture.kind is D1 || texture.kind is D1Array,
        made.image_type is ThreeDimensional <==> texture.kind is D3,
        made.tiling is Linear <==> route is DirectAlias,
{
}

/// A planned image can be used for what its texture was declared for and for
/// copies, and for nothing else: a depth or stencil format is attached as such
/// and never stored to. It can be viewed as a cube where it is one, in another
/// format where it was declared so or has a second spelling, and by slice where
/// it is a volume to render to.
pub proof fn law_a_planned_image_serves_what_was_declared(
    texture: Texture,
    format: Format,
    route: Route,
    made: ImagePlan,
)
    requires
        call_ensures(plan, (texture, format, route), Ok::<ImagePlan, Refusal>(made)),
    ensures
        ({
            let depth_stencil = holds_depth(texture.pixel_format) || holds_stencil(
                texture.pixel_format,
            );
            let target = declared_for(texture, TextureUsage::RENDER_TARGET);
            let stored = declared_for(texture, TextureUsage::SHADER_WRITE) || declared_for(
                texture,
                TextureUsage::SHADER_ATOMIC,
            );
            &&& made.usage & image_usage::TRANSFER_SRC != 0
            &&& made.usage & image_usage::TRANSFER_DST != 0
            &&& made.usage & image_usage::SAMPLED != 0 <==> declared_for(
                texture,
                TextureUsage::SHADER_READ,
            )
            &&& made.usage & image_usage::STORAGE != 0 <==> stored && !depth_stencil
            &&& made.usage & image_usage::COLOR_ATTACHMENT != 0 <==> target && !depth_stencil
            &&& made.usage & image_usage::DEPTH_STENCIL_ATTACHMENT != 0 <==> target && depth_stencil
            &&& made.usage <= 0x3f
            &&& made.flags & image_create::CUBE_COMPATIBLE != 0 <==> texture.kind is Cube
                || texture.kind is CubeArray
            &&& made.flags & image_create::MUTABLE_FORMAT != 0 <==> declared_for(
                texture,
                TextureUsage::PIXEL_FORMAT_VIEW,
            ) || srgb_of(format) is Some
            &&& made.flags & image_create::TYPE_2D_ARRAY_COMPATIBLE != 0 <==> texture.kind is D3
                && target
            &&& made.flags <= 0x38
        }),
{
    law_each_usage_becomes_its_own_capability(texture);
    law_each_flag_has_its_own_reason(texture, format);
}

/// A texture is refused exactly where its sample count is no power of two up to
/// 64 or where it was declared, by name, for shader writes to a depth or stencil
/// format. The refusal carries the count or the format.
pub proof fn law_a_texture_is_refused_for_its_own_reason(
    texture: Texture,
    format: Format,
    route: Route,
    made: Result<ImagePlan, Refusal>,
)
    requires
        call_ensures(plan, (texture, format, route), made),
    ensures
        ({
            let count = texture.sample_count;
            let countable = count == 1 || count == 2 || count == 4 || count == 8 || count == 16
                || count == 32 || count == 64;
            let stored = texture.usage.0 & TextureUsage::SHADER_WRITE == TextureUsage::SHADER_WRITE
                || texture.usage.0 & TextureUsage::SHADER_ATOMIC == TextureUsage::SHADER_ATOMIC;
            let barred = stored && (holds_depth(texture.pixel_format) || holds_stencil(
                texture.pixel_format,
            ));
            &&& made is Ok <==> countable && !barred
            &&& barred ==> made == Err::<ImagePlan, Refusal>(
                Refusal::DepthShaderWrite { format: texture.pixel_format },
            )
            &&& !barred && !countable ==> made == Err::<ImagePlan, Refusal>(
                Refusal::SampleCountUnrepresentable { declared: count },
            )
        }),
{
    let usage = texture.usage.0;
    assert(usage & 2u32 == 2u32 || usage & 0x20u32 == 0x20u32 ==> usage != 0) by (bit_vector);
}

/// What is asked of a device and what is created are the plan's own members,
/// each in its own place, and an image is created exclusive and with no
/// contents.
pub proof fn law_what_is_created_is_what_was_planned(
    made: ImagePlan,
    reported: ImageFormatProperties,
    admitted: Admitted,
    query: FormatQuery,
    info: ImageCreateInfo,
)
    requires
        call_ensures(ImagePlan::admitted, (made, reported), Ok::<Admitted, Refusal>(admitted)),
        call_ensures(ImagePlan::query, (&made,), query),
        call_ensures(Admitted::create_info, (&admitted,), info),
    ensures
        query.format == made.format,
        query.image_type == made.image_type,
        query.tiling == made.tiling,
        query.usage == made.usage,
        query.flags == made.flags,
        info.flags == made.flags,
        info.image_type == made.image_type,
        info.format == made.format,
        info.extent.width == made.extent.width,
        info.extent.height == made.extent.height,
        info.extent.depth == made.extent.depth,
        info.mip_levels == made.mip_levels,
        info.array_layers == made.array_layers,
        info.samples == made.samples,
        info.tiling == made.tiling,
        info.usage == made.usage,
        info.sharing_mode is Exclusive,
        info.initial_layout is Undefined,
{
}

/// An image is refused by a device exactly where it exceeds a limit the device
/// reported, and the refusal carries what was declared and the limit it
/// exceeds.
pub proof fn law_a_device_refuses_what_exceeds_it(
    made: ImagePlan,
    reported: ImageFormatProperties,
    answer: Result<Admitted, Refusal>,
)
    requires
        call_ensures(ImagePlan::admitted, (made, reported), answer),
    ensures
        answer is Ok <==> {
            &&& made.extent.width <= reported.max_extent.width
            &&& made.extent.height <= reported.max_extent.height
            &&& made.extent.depth <= reported.max_extent.depth
            &&& made.mip_levels <= reported.max_mip_levels
            &&& made.array_layers <= reported.max_array_layers
            &&& reported.sample_counts & made.samples == made.samples
        },
        answer matches Err(refused) ==> match refused {
            Refusal::ExtentBeyondDevice { axis, declared, max } => declared > max && {
                ||| axis@ == "width"@ && declared == made.extent.width && max
                    == reported.max_extent.width
                ||| axis@ == "height"@ && declared == made.extent.height && max
                    == reported.max_extent.height
                ||| axis@ == "depth"@ && declared == made.extent.depth && max
                    == reported.max_extent.depth
            },
            Refusal::MipLevelsBeyondDevice { declared, max } => declared > max && declared
                == made.mip_levels && max == reported.max_mip_levels,
            Refusal::LayersBeyondDevice { declared, max } => declared > max && declared
                == made.array_layers && max == reported.max_array_layers,
            Refusal::SampleCountUnsupported { declared, supported } => declared == made.samples
                && supported == reported.sample_counts && supported & declared != declared,
            _ => false,
        },
{
}

/// Of several limits exceeded the first in order is named: width, height,
/// depth, levels, layers, and then the sample count.
pub proof fn law_the_first_limit_exceeded_is_named(
    made: ImagePlan,
    reported: ImageFormatProperties,
    answer: Result<Admitted, Refusal>,
)
    requires
        call_ensures(ImagePlan::admitted, (made, reported), answer),
    ensures
        ({
            let width = made.extent.width <= reported.max_extent.width;
            let height = width && made.extent.height <= reported.max_extent.height;
            let depth = height && made.extent.depth <= reported.max_extent.depth;
            let levels = depth && made.mip_levels <= reported.max_mip_levels;
            let layers = levels && made.array_layers <= reported.max_array_layers;
            &&& !width ==> answer is Err && (answer->Err_0 matches Refusal::ExtentBeyondDevice {
                axis,
                ..
            } && axis@ == "width"@)
            &&& width && !height ==> answer is Err && (
            answer->Err_0 matches Refusal::ExtentBeyondDevice { axis, .. } && axis@ == "height"@)
            &&& height && !depth ==> answer is Err && (
            answer->Err_0 matches Refusal::ExtentBeyondDevice { axis, .. } && axis@ == "depth"@)
            &&& depth && !levels ==> answer is Err && answer->Err_0 is MipLevelsBeyondDevice
            &&& levels && !layers ==> answer is Err && answer->Err_0 is LayersBeyondDevice
            &&& layers && answer is Err ==> answer->Err_0 is SampleCountUnsupported
        }),
{
}

/// A sample count is its own flag where it is a power of two up to 64, and is
/// refused by its number where it is not.
pub proof fn law_a_sample_count_is_its_own_flag(
    count: u32,
    answer: Result<SampleCountFlags, Refusal>,
)
    requires
        call_ensures(sample_flags, (count,), answer),
    ensures
        answer matches Ok(flags) ==> flags == count,
        answer is Ok <==> count == 1 || count == 2 || count == 4 || count == 8 || count == 16
            || count == 32 || count == 64,
        answer matches Err(refused) ==> refused == (Refusal::SampleCountUnrepresentable {
            declared: count,
        }),
{
}

} // verus!
