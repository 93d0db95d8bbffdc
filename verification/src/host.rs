//! Choosing the physical device this rail binds, and what is asked of one.
//!
//! Selection has two steps, and only the first can exclude anything. Admission
//! is [`Census::take`], and it is entirely capability-driven. Preference among
//! the admitted is [`DeviceClass`], a reported class and not a name: it decides
//! only the order among devices that are all already usable. Ties keep the
//! first enumerated device.
//!
//! A feature structure is asked about only when its extension is there:
//! [`Questions`] is built from what was enumerated and never from what was
//! hoped for, and a fact that was not asked reads as absent.

use crate::census::{extension, floor, ApiVersion, Census, Floor, Reported};
use crate::memory::MemoryTopology;
use crate::queues::Family;
use crate::text::{decimal, push_decimal, push_text};
use crate::vulkan;
use vstd::prelude::*;

verus! {

/// The class of device the driver reports itself as.
///
/// It orders devices that have all already been admitted on capability; it
/// never admits or refuses one.
#[derive(Clone, Copy, Debug, PartialEq, Eq, Structural)]
pub enum DeviceClass {
    Discrete,
    Integrated,
    Virtual,
    Cpu,
    Other,
}

impl DeviceClass {
    /// The class of each `VkPhysicalDeviceType` value.
    pub open spec fn class_of(reported: i32) -> DeviceClass {
        if reported == vulkan::PhysicalDeviceType::DiscreteGpu.raw() {
            DeviceClass::Discrete
        } else if reported == vulkan::PhysicalDeviceType::IntegratedGpu.raw() {
            DeviceClass::Integrated
        } else if reported == vulkan::PhysicalDeviceType::VirtualGpu.raw() {
            DeviceClass::Virtual
        } else if reported == vulkan::PhysicalDeviceType::Cpu.raw() {
            DeviceClass::Cpu
        } else {
            DeviceClass::Other
        }
    }

    /// The class of a reported `VkPhysicalDeviceType` value. Anything the
    /// enumeration grows later reads as [`DeviceClass::Other`].
    #[must_use]
    pub fn of(reported: i32) -> (class: Self)
        ensures
            class == DeviceClass::class_of(reported),
    {
        if reported == vulkan::PhysicalDeviceType::DiscreteGpu.as_raw() {
            DeviceClass::Discrete
        } else if reported == vulkan::PhysicalDeviceType::IntegratedGpu.as_raw() {
            DeviceClass::Integrated
        } else if reported == vulkan::PhysicalDeviceType::VirtualGpu.as_raw() {
            DeviceClass::Virtual
        } else if reported == vulkan::PhysicalDeviceType::Cpu.as_raw() {
            DeviceClass::Cpu
        } else {
            DeviceClass::Other
        }
    }

    /// The preference of each class.
    pub open spec fn preference(self) -> u8 {
        match self {
            DeviceClass::Discrete => 4,
            DeviceClass::Integrated => 3,
            DeviceClass::Virtual => 2,
            DeviceClass::Other => 1,
            DeviceClass::Cpu => 0,
        }
    }

    /// Preference, higher first.
    ///
    /// A CPU device ranks last rather than being excluded: it is a legal host
    /// for this rail and the only host on some machines.
    #[must_use]
    pub fn rank(self) -> (rank: u8)
        ensures
            rank == self.preference(),
    {
        match self {
            DeviceClass::Discrete => 4,
            DeviceClass::Integrated => 3,
            DeviceClass::Virtual => 2,
            DeviceClass::Other => 1,
            DeviceClass::Cpu => 0,
        }
    }

    /// The slug of each class.
    pub open spec fn slug_text(self) -> Seq<char> {
        match self {
            DeviceClass::Discrete => "discrete"@,
            DeviceClass::Integrated => "integrated"@,
            DeviceClass::Virtual => "virtual"@,
            DeviceClass::Cpu => "cpu"@,
            DeviceClass::Other => "other"@,
        }
    }

    /// The class's slug.
    #[must_use]
    pub fn slug(self) -> (slug: &'static str)
        ensures
            slug@ == self.slug_text(),
    {
        match self {
            DeviceClass::Discrete => "discrete",
            DeviceClass::Integrated => "integrated",
            DeviceClass::Virtual => "virtual",
            DeviceClass::Cpu => "cpu",
            DeviceClass::Other => "other",
        }
    }
}

/// One enumerated device, judged.
#[derive(Clone, Copy, Debug, PartialEq, Eq)]
pub struct Candidate {
    /// Position in the enumeration, which is what breaks a rank tie.
    pub index: usize,
    pub class: DeviceClass,
    /// What the census made of it: the catalog, or the floor it failed.
    pub verdict: Result<Census, Floor>,
}

impl Candidate {
    /// This candidate is preferred to `other`: a higher class, or the same
    /// class enumerated no later.
    pub open spec fn outranks(self, other: Candidate) -> bool {
        self.class.preference() > other.class.preference() || (self.class.preference()
            == other.class.preference() && self.index <= other.index)
    }
}

/// No enumerated device can serve this rail.
///
/// Carries every candidate's reason rather than a count.
#[derive(Clone, Debug, PartialEq, Eq)]
pub struct NoDevice {
    pub enumerated: usize,
    pub floors: Vec<Floor>,
}

/// The floors, each behind its position.
pub open spec fn floors_text(floors: Seq<Floor>) -> Seq<char>
    decreases floors.len(),
{
    if floors.len() == 0 {
        Seq::empty()
    } else {
        floors_text(floors.drop_last()) + " ["@ + decimal((floors.len() - 1) as nat) + "]="@
            + floors.last().message_text()
    }
}

impl NoDevice {
    /// The failure's slug.
    #[must_use]
    pub fn slug(&self) -> (slug: &'static str)
        ensures
            slug@ == "vk_host_no_usable_device"@,
    {
        "vk_host_no_usable_device"
    }

    /// The failure with every reason.
    pub open spec fn message_text(&self) -> Seq<char> {
        "vk_host_no_usable_device"@ + " enumerated="@ + decimal(self.enumerated as nat)
            + floors_text(self.floors@)
    }

    /// The failure with every reason.
    pub fn message(&self) -> (text: String)
        ensures
            text@ == self.message_text(),
    {
        let mut text = String::new();
        push_text(&mut text, self.slug());
        push_text(&mut text, " enumerated=");
        push_decimal(&mut text, self.enumerated as u64);
        let ghost head = text@;
        let mut at: usize = 0;
        assert(self.floors@.take(0) =~= Seq::empty());
        assert(text@ =~= head + floors_text(self.floors@.take(0)));
        while at < self.floors.len()
            invariant
                at <= self.floors@.len(),
                text@ == head + floors_text(self.floors@.take(at as int)),
            decreases self.floors@.len() - at,
        {
            let ghost before = text@;
            push_text(&mut text, " [");
            push_decimal(&mut text, at as u64);
            push_text(&mut text, "]=");
            self.floors[at].push(&mut text);
            proof {
                assert(self.floors@.take(at + 1).drop_last() =~= self.floors@.take(at as int));
                assert(text@ =~= head + floors_text(self.floors@.take(at + 1)));
            }
            at += 1;
        }
        assert(self.floors@.take(at as int) =~= self.floors@);
        assert(text@ =~= self.message_text());
        text
    }
}

/// The floors of the candidates that failed one, in order.
pub open spec fn floors_of(candidates: Seq<Candidate>) -> Seq<Floor>
    decreases candidates.len(),
{
    if candidates.len() == 0 {
        Seq::empty()
    } else {
        match candidates.last().verdict {
            Err(floor) => floors_of(candidates.drop_last()).push(floor),
            Ok(_) => floors_of(candidates.drop_last()),
        }
    }
}

/// Whether the candidate at `at` is the one to bind: it is admitted, no
/// admitted candidate before it is preferred to it, and none after it is
/// preferred or equal.
pub open spec fn is_best(candidates: Seq<Candidate>, at: int) -> bool {
    &&& 0 <= at < candidates.len()
    &&& candidates[at].verdict is Ok
    &&& forall|i: int|
        0 <= i < at && (#[trigger] candidates[i]).verdict is Ok ==> candidates[at].outranks(
            candidates[i],
        )
    &&& forall|i: int|
        at < i < candidates.len() && (#[trigger] candidates[i]).verdict is Ok
            ==> !candidates[i].outranks(candidates[at])
}

/// Pick the device this rail binds.
///
/// Of the admitted candidates the highest class wins, and of equal classes the
/// first enumerated. Fails when nothing cleared the floor, naming what each
/// candidate was missing.
pub fn select(candidates: &[Candidate]) -> (selected: Result<Candidate, NoDevice>)
    ensures
        match selected {
            Ok(chosen) => exists|at: int|
                #[trigger] is_best(candidates@, at) && candidates@[at] == chosen,
            Err(failure) => {
                &&& forall|i: int|
                    0 <= i < candidates@.len() ==> (#[trigger] candidates@[i]).verdict is Err
                &&& failure.enumerated == candidates@.len()
                &&& failure.floors@ == floors_of(candidates@)
            },
        },
{
    let mut best: Option<usize> = None;
    let mut floors: Vec<Floor> = Vec::new();
    let mut at: usize = 0;
    assert(candidates@.take(0) =~= Seq::empty());
    while at < candidates.len()
        invariant
            at <= candidates@.len(),
            floors@ == floors_of(candidates@.take(at as int)),
            match best {
                Some(leader) => leader < at && is_best(candidates@.take(at as int), leader as int),
                None => forall|i: int| 0 <= i < at ==> (#[trigger] candidates@[i]).verdict is Err,
            },
        decreases candidates@.len() - at,
    {
        let candidate = candidates[at];
        let ghost seen = candidates@.take(at as int);
        let ghost more = candidates@.take(at + 1);
        proof {
            assert(more.drop_last() =~= seen);
            assert(more.last() == candidate);
            assert forall|i: int| 0 <= i < at implies #[trigger] more[i] == seen[i] by {}
        }
        match candidate.verdict {
            Err(floor) => floors.push(floor),
            Ok(_) => {
                let wins = match best {
                    None => true,
                    Some(leader) => {
                        let other = candidates[leader];
                        candidate.class.rank() > other.class.rank() || (candidate.class.rank()
                            == other.class.rank() && candidate.index <= other.index)
                    },
                };
                if wins {
                    best = Some(at);
                }
            },
        }
        proof {
            if let Some(leader) = best {
                assert forall|i: int|
                    0 <= i < leader && (#[trigger] more[i]).verdict is Ok implies more[leader as int].outranks(
                    more[i],
                ) by {
                    assert(more[i] == seen[i]);
                }
                assert(is_best(more, leader as int));
            }
        }
        at += 1;
    }
    assert(candidates@.take(at as int) =~= candidates@);
    match best {
        Some(leader) => {
            assert(is_best(candidates@, leader as int));
            Ok(candidates[leader])
        },
        None => Err(NoDevice { enumerated: candidates.len(), floors }),
    }
}

/// Selection is reproducible: there is one best candidate.
pub proof fn law_selection_is_total(candidates: Seq<Candidate>, a: int, b: int)
    requires
        is_best(candidates, a),
        is_best(candidates, b),
    ensures
        a == b,
{
    assert(candidates[a].verdict is Ok);
    assert(candidates[b].verdict is Ok);
}

/// The selected device is of the highest class any admitted device has, and of
/// those the first enumerated.
pub proof fn law_the_best_class_wins(candidates: Seq<Candidate>, at: int, other: int)
    requires
        is_best(candidates, at),
        0 <= other < candidates.len(),
        candidates[other].verdict is Ok,
    ensures
        candidates[at].class.preference() >= candidates[other].class.preference(),
        candidates[at].class.preference() == candidates[other].class.preference()
            ==> candidates[at].index <= candidates[other].index,
{
}

/// A class never admits a device the floor refused.
pub proof fn law_a_class_never_admits(candidates: Seq<Candidate>, at: int)
    requires
        0 <= at < candidates.len(),
        candidates[at].verdict is Err,
    ensures
        !is_best(candidates, at),
{
}

/// Why the host could not be opened. Results travel as their raw `VkResult`.
#[derive(Clone, Debug, PartialEq, Eq)]
pub enum OpenFailure {
    /// The Vulkan loader is absent or refused to initialize.
    NoLoader,
    /// The loader supports an API below this rail's baseline, so no device it
    /// enumerates could clear the floor.
    LoaderBelowBaseline { reported: ApiVersion },
    CreateInstance { result: i32 },
    EnumerateDevices { result: i32 },
    NoDevice(NoDevice),
}

/// What `ash::vk::Result` writes for a raw result.
pub uninterp spec fn result_name(raw: i32) -> Seq<char>;

/// `ash::vk::Result`'s `Debug`: the name of a result it knows, and the number
/// of one it does not. Which name belongs to which value is not stated.
#[verifier::external_body]
fn name_of_result(raw: i32) -> (name: String)
    ensures
        name@ == result_name(raw),
{
    format!("{:?}", ash::vk::Result::from_raw(raw))
}

impl OpenFailure {
    /// The slug of each failure.
    pub open spec fn slug_text(&self) -> Seq<char> {
        match *self {
            OpenFailure::NoLoader => "vk_host_no_loader"@,
            OpenFailure::LoaderBelowBaseline { .. } => "vk_host_loader_below_baseline"@,
            OpenFailure::CreateInstance { .. } => "vk_host_create_instance"@,
            OpenFailure::EnumerateDevices { .. } => "vk_host_enumerate_devices"@,
            OpenFailure::NoDevice(_) => "vk_host_no_usable_device"@,
        }
    }

    /// The failure's slug.
    #[must_use]
    pub fn slug(&self) -> (slug: &'static str)
        ensures
            slug@ == self.slug_text(),
    {
        match self {
            OpenFailure::NoLoader => "vk_host_no_loader",
            OpenFailure::LoaderBelowBaseline { .. } => "vk_host_loader_below_baseline",
            OpenFailure::CreateInstance { .. } => "vk_host_create_instance",
            OpenFailure::EnumerateDevices { .. } => "vk_host_enumerate_devices",
            OpenFailure::NoDevice(_) => "vk_host_no_usable_device",
        }
    }

    /// The raw result the failure carries, where it carries one.
    pub open spec fn raw_result(&self) -> Option<i32> {
        match *self {
            OpenFailure::CreateInstance { result } => Some(result),
            OpenFailure::EnumerateDevices { result } => Some(result),
            _ => None,
        }
    }

    /// The failure with what it is about, given the name of its result.
    pub open spec fn message_text(&self, result: Seq<char>) -> Seq<char> {
        match *self {
            OpenFailure::NoLoader => self.slug_text(),
            OpenFailure::LoaderBelowBaseline { reported } => self.slug_text() + " reported="@
                + reported.text(),
            OpenFailure::CreateInstance { .. } => self.slug_text() + " result="@ + result,
            OpenFailure::EnumerateDevices { .. } => self.slug_text() + " result="@ + result,
            OpenFailure::NoDevice(inner) => inner.message_text(),
        }
    }

    /// The failure with what it is about, given the name of its result.
    pub fn message_with(&self, result: &str) -> (text: String)
        ensures
            text@ == self.message_text(result@),
    {
        let mut text = String::new();
        match self {
            OpenFailure::NoLoader => push_text(&mut text, self.slug()),
            OpenFailure::LoaderBelowBaseline { reported } => {
                push_text(&mut text, self.slug());
                push_text(&mut text, " reported=");
                reported.push(&mut text);
            },
            OpenFailure::CreateInstance { .. } | OpenFailure::EnumerateDevices { .. } => {
                push_text(&mut text, self.slug());
                push_text(&mut text, " result=");
                push_text(&mut text, result);
            },
            OpenFailure::NoDevice(inner) => {
                return inner.message();
            },
        }
        assert(text@ =~= self.message_text(result@));
        text
    }

    /// The failure with what it is about.
    pub fn message(&self) -> (text: String)
        ensures
            text@ == self.message_text(
                match self.raw_result() {
                    Some(raw) => result_name(raw),
                    None => Seq::<char>::empty(),
                },
            ),
    {
        let name = match self {
            OpenFailure::CreateInstance { result } => name_of_result(*result),
            OpenFailure::EnumerateDevices { result } => name_of_result(*result),
            _ => String::new(),
        };
        self.message_with(name.as_str())
    }
}

/// The version to create the instance with, from what the loader answered, or
/// why there is none.
///
/// A 1.0 loader answers nothing. `VkApplicationInfo::apiVersion` caps the core
/// functionality an instance exposes, so the request is the loader's own
/// version and not the baseline.
pub fn requested_api(answered: Result<Option<u32>, i32>) -> (requested: Result<u32, OpenFailure>)
    ensures
        match answered {
            Err(result) => requested == Err::<u32, OpenFailure>(
                OpenFailure::CreateInstance { result },
            ),
            Ok(None) => requested == Err::<u32, OpenFailure>(
                OpenFailure::LoaderBelowBaseline { reported: ApiVersion { major: 1, minor: 0 } },
            ),
            Ok(Some(packed)) => requested == if ApiVersion::unpacked(packed).reaches(1, 2) {
                Ok::<u32, OpenFailure>(ApiVersion::unpacked(packed).packed())
            } else {
                Err(OpenFailure::LoaderBelowBaseline { reported: ApiVersion::unpacked(packed) })
            },
        },
{
    let version = match answered {
        Err(result) => {
            return Err(OpenFailure::CreateInstance { result });
        },
        Ok(None) => {
            return Err(
                OpenFailure::LoaderBelowBaseline { reported: ApiVersion { major: 1, minor: 0 } },
            );
        },
        Ok(Some(packed)) => ApiVersion::decode(packed),
    };
    if !version.at_least(1, 2) {
        return Err(OpenFailure::LoaderBelowBaseline { reported: version });
    }
    Ok(version.encode())
}

/// The version of core functionality a device actually exposes.
///
/// The lesser of what the device reports and what the instance asked for: a
/// 1.4 device under a 1.2 instance exposes 1.2.
#[must_use]
pub fn effective_api(device: u32, requested: u32) -> (effective: u32)
    ensures
        effective == if device < requested {
            device
        } else {
            requested
        },
{
    if device < requested {
        device
    } else {
        requested
    }
}

/// The bytes before the first zero.
pub open spec fn until_zero(bytes: Seq<u8>) -> Seq<u8>
    decreases bytes.len(),
{
    if bytes.len() == 0 || bytes[0] == 0 {
        Seq::empty()
    } else {
        seq![bytes[0]] + until_zero(bytes.skip(1))
    }
}

/// The names among raw extension names that are text, in order.
pub open spec fn decoded_names(raw: Seq<Vec<u8>>) -> Seq<Seq<char>>
    decreases raw.len(),
{
    if raw.len() == 0 {
        Seq::empty()
    } else {
        let bytes = until_zero(raw.last()@);
        if vstd::utf8::valid_utf8(bytes) {
            decoded_names(raw.drop_last()).push(vstd::utf8::decode_utf8(bytes))
        } else {
            decoded_names(raw.drop_last())
        }
    }
}

/// What each of a list of strings holds.
pub open spec fn texts(names: Seq<String>) -> Seq<Seq<char>> {
    names.map_values(|name: String| name@)
}

/// `String::from_utf8`: the text of bytes that are valid UTF-8, and nothing for
/// bytes that are not.
#[verifier::external_body]
fn text_of(bytes: Vec<u8>) -> (text: Option<String>)
    ensures
        text is Some <==> vstd::utf8::valid_utf8(bytes@),
        text matches Some(text) ==> text@ == vstd::utf8::decode_utf8(bytes@),
{
    String::from_utf8(bytes).ok()
}

/// The bytes of a name up to its terminator.
fn terminated(bytes: &[u8]) -> (name: Vec<u8>)
    ensures
        name@ == until_zero(bytes@),
{
    let mut name: Vec<u8> = Vec::new();
    let mut at: usize = 0;
    assert(bytes@.skip(0) =~= bytes@);
    assert(name@ + until_zero(bytes@.skip(0)) =~= until_zero(bytes@));
    while at < bytes.len() && bytes[at] != 0
        invariant
            at <= bytes@.len(),
            name@ + until_zero(bytes@.skip(at as int)) == until_zero(bytes@),
        decreases bytes@.len() - at,
    {
        let ghost gathered = name@;
        name.push(bytes[at]);
        proof {
            assert(bytes@.skip(at as int).skip(1) =~= bytes@.skip(at + 1));
            assert(name@ + until_zero(bytes@.skip(at + 1)) =~= gathered + until_zero(
                bytes@.skip(at as int),
            ));
        }
        at += 1;
    }
    assert(until_zero(bytes@.skip(at as int)) =~= Seq::empty());
    assert(name@ =~= until_zero(bytes@));
    name
}

/// The extension names a device enumerated, or the floor it failed by not
/// answering.
///
/// A driver may fail this query rather than answer an empty list, and the two
/// are not the same fact. A name that is not text is left out.
pub fn enumerated_names(enumerated: Result<Vec<Vec<u8>>, i32>) -> (names: Result<
    Vec<String>,
    Floor,
>)
    ensures
        match enumerated {
            Err(result) => names == Err::<Vec<String>, Floor>(Floor::Unenumerable { result }),
            Ok(raw) => names is Ok && texts(names->Ok_0@) == decoded_names(raw@),
        },
{
    let raw = match enumerated {
        Err(result) => {
            return Err(Floor::Unenumerable { result });
        },
        Ok(raw) => raw,
    };
    let mut names: Vec<String> = Vec::new();
    let mut at: usize = 0;
    assert(raw@.take(0) =~= Seq::empty());
    assert(texts(names@) =~= decoded_names(raw@.take(0)));
    while at < raw.len()
        invariant
            at <= raw@.len(),
            texts(names@) == decoded_names(raw@.take(at as int)),
        decreases raw@.len() - at,
    {
        proof {
            assert(raw@.take(at + 1).drop_last() =~= raw@.take(at as int));
            assert(raw@.take(at + 1).last() == raw@[at as int]);
        }
        let bytes = terminated(raw[at].as_slice());
        let ghost before = names@;
        if let Some(name) = text_of(bytes) {
            names.push(name);
            assert(texts(names@) =~= texts(before).push(name@));
        }
        at += 1;
    }
    assert(raw@.take(at as int) =~= raw@);
    Ok(names)
}

fn has(names: &[String], wanted: &str) -> (present: bool)
    ensures
        present == texts(names@).contains(wanted@),
{
    let sought = wanted.to_owned();
    let mut at: usize = 0;
    while at < names.len()
        invariant
            at <= names@.len(),
            sought@ == wanted@,
            forall|i: int| 0 <= i < at ==> (#[trigger] texts(names@)[i]) != wanted@,
        decreases names@.len() - at,
    {
        if names[at] == sought {
            assert(texts(names@)[at as int] == wanted@);
            return true;
        }
        at += 1;
    }
    false
}

/// Which of the two divisor properties a device is asked for. They are not
/// aliases, so the one asked for has to match the route the device offers.
#[derive(Clone, Copy, Debug, PartialEq, Eq, Structural)]
pub enum DivisorProperties {
    Khr,
    Ext,
    Neither,
}

/// What a device is asked, beyond what every device answers.
#[derive(Clone, Copy, Debug, PartialEq, Eq, Structural)]
pub struct Questions {
    pub mesh_shader: bool,
    pub descriptor_buffer: bool,
    pub synchronization2: bool,
    pub dynamic_rendering: bool,
    pub extended_dynamic_state: bool,
    /// The features and the properties of the third dynamic-state extension.
    pub extended_dynamic_state3: bool,
    /// The divisor features: promoted by 1.4, and below that reached through
    /// either extension name.
    pub divisor: bool,
    pub divisor_properties: DivisorProperties,
    pub push_descriptor: bool,
    /// `maxBufferSize`: core in 1.3, and reachable below it through an
    /// extension.
    pub max_buffer_size: bool,
    /// Whether guest pages can be imported, and at which alignment.
    pub external_memory_host: bool,
    /// Not asked: whether the device presents.
    pub swapchain: bool,
}

/// What a device of `api` that enumerated `names` is asked.
pub open spec fn questions_for(api: ApiVersion, names: Seq<Seq<char>>) -> Questions {
    let khr_divisor = api.reaches(1, 4) || names.contains(extension::VERTEX_ATTRIBUTE_DIVISOR@);
    let ext_divisor = names.contains(extension::VERTEX_ATTRIBUTE_DIVISOR_EXT@);
    Questions {
        mesh_shader: names.contains(extension::MESH_SHADER@),
        descriptor_buffer: names.contains(extension::DESCRIPTOR_BUFFER@),
        synchronization2: names.contains(extension::SYNCHRONIZATION_2@),
        dynamic_rendering: names.contains(extension::DYNAMIC_RENDERING@),
        extended_dynamic_state: names.contains(extension::EXTENDED_DYNAMIC_STATE@),
        extended_dynamic_state3: names.contains(extension::EXTENDED_DYNAMIC_STATE_3@),
        divisor: khr_divisor || ext_divisor,
        divisor_properties: if khr_divisor {
            DivisorProperties::Khr
        } else if ext_divisor {
            DivisorProperties::Ext
        } else {
            DivisorProperties::Neither
        },
        push_descriptor: names.contains(extension::PUSH_DESCRIPTOR@),
        max_buffer_size: api.reaches(1, 3) || names.contains(extension::MAINTENANCE_4@),
        external_memory_host: names.contains(extension::EXTERNAL_MEMORY_HOST@),
        swapchain: names.contains(extension::SWAPCHAIN@),
    }
}

/// A device before it is asked: the version it exposes and what to ask it.
#[derive(Clone, Copy, Debug, PartialEq, Eq, Structural)]
pub struct Survey {
    pub effective: u32,
    pub questions: Questions,
}

/// Read what a device says of itself and decide what to ask it.
///
/// `requested` is the instance's `VkApplicationInfo::apiVersion`. Fails where
/// the device could not enumerate its extensions.
pub fn survey(device_api: u32, requested: u32, enumerated: Result<Vec<Vec<u8>>, i32>) -> (surveyed:
    Result<Survey, Floor>)
    ensures
        match enumerated {
            Err(result) => surveyed == Err::<Survey, Floor>(Floor::Unenumerable { result }),
            Ok(raw) => surveyed is Ok && ({
                let effective = if device_api < requested {
                    device_api
                } else {
                    requested
                };
                &&& surveyed->Ok_0.effective == effective
                &&& surveyed->Ok_0.questions == questions_for(
                    ApiVersion::unpacked(effective),
                    decoded_names(raw@),
                )
            }),
        },
{
    let effective: u32 = effective_api(device_api, requested);
    let api = ApiVersion::decode(effective);
    let names = match enumerated_names(enumerated) {
        Ok(names) => names,
        Err(floor) => {
            return Err(floor);
        },
    };
    let questions = questions(api, names.as_slice());
    Ok(Survey { effective, questions })
}

/// What to ask a device of `api` that enumerated `names`.
#[must_use]
pub fn questions(api: ApiVersion, names: &[String]) -> (questions: Questions)
    ensures
        questions == questions_for(api, texts(names@)),
{
    let khr_divisor = api.at_least(1, 4) || has(names, extension::VERTEX_ATTRIBUTE_DIVISOR);
    let ext_divisor = has(names, extension::VERTEX_ATTRIBUTE_DIVISOR_EXT);
    Questions {
        mesh_shader: has(names, extension::MESH_SHADER),
        descriptor_buffer: has(names, extension::DESCRIPTOR_BUFFER),
        synchronization2: has(names, extension::SYNCHRONIZATION_2),
        dynamic_rendering: has(names, extension::DYNAMIC_RENDERING),
        extended_dynamic_state: has(names, extension::EXTENDED_DYNAMIC_STATE),
        extended_dynamic_state3: has(names, extension::EXTENDED_DYNAMIC_STATE_3),
        divisor: khr_divisor || ext_divisor,
        divisor_properties: if khr_divisor {
            DivisorProperties::Khr
        } else if ext_divisor {
            DivisorProperties::Ext
        } else {
            DivisorProperties::Neither
        },
        push_descriptor: has(names, extension::PUSH_DESCRIPTOR),
        max_buffer_size: api.at_least(1, 3) || has(names, extension::MAINTENANCE_4),
        external_memory_host: has(names, extension::EXTERNAL_MEMORY_HOST),
        swapchain: has(names, extension::SWAPCHAIN),
    }
}

/// What a device answered. A `VkBool32` is its word, and a field that was not
/// asked holds whatever its structure was created with.
#[derive(Clone, Copy, Debug, PartialEq, Eq, Structural)]
pub struct Answers {
    pub timeline_semaphore: u32,
    pub sampler_mirror_clamp_to_edge: u32,
    pub depth_clamp: u32,
    pub fill_mode_non_solid: u32,
    pub wide_lines: u32,
    pub min_line_width: u32,
    pub max_line_width: u32,
    pub multi_viewport: u32,
    pub max_viewports: u32,
    pub sampler_anisotropy: u32,
    pub max_sampler_anisotropy: u32,
    pub dual_src_blend: u32,
    pub independent_blend: u32,
    pub mesh_shader: u32,
    pub descriptor_buffer: u32,
    pub synchronization2: u32,
    pub dynamic_rendering: u32,
    pub extended_dynamic_state: u32,
    pub extended_dynamic_state3_polygon_mode: u32,
    pub extended_dynamic_state3_depth_clamp_enable: u32,
    pub dynamic_primitive_topology_unrestricted: u32,
    pub vertex_attribute_instance_rate_divisor: u32,
    pub vertex_attribute_instance_rate_zero_divisor: u32,
    pub max_vertex_attrib_divisor: u32,
    pub max_push_descriptors: u32,
    pub max_buffer_size: u64,
    pub host_allocation_importable: bool,
    pub min_imported_host_pointer_alignment: u64,
    pub vertex_formats: u64,
    pub topology: MemoryTopology,
}

/// A yes that was asked for.
pub open spec fn yes(asked: bool, answer: u32) -> bool {
    asked && answer == vulkan::TRUE
}

/// What a survey and its answers report. A fact that was not asked is absent,
/// whatever its field holds.
pub open spec fn reported(survey: Survey, answers: Answers) -> Reported {
    let asked = survey.questions;
    Reported {
        api_version: survey.effective,
        swapchain: asked.swapchain,
        timeline_semaphore: yes(true, answers.timeline_semaphore),
        synchronization2: yes(asked.synchronization2, answers.synchronization2),
        dynamic_rendering: yes(asked.dynamic_rendering, answers.dynamic_rendering),
        depth_clamp: yes(true, answers.depth_clamp),
        fill_mode_non_solid: yes(true, answers.fill_mode_non_solid),
        wide_lines: yes(true, answers.wide_lines),
        min_line_width: answers.min_line_width,
        max_line_width: answers.max_line_width,
        multi_viewport: yes(true, answers.multi_viewport),
        max_viewports: answers.max_viewports,
        sampler_anisotropy: yes(true, answers.sampler_anisotropy),
        max_sampler_anisotropy: answers.max_sampler_anisotropy,
        extended_dynamic_state: yes(asked.extended_dynamic_state, answers.extended_dynamic_state),
        dynamic_primitive_topology_unrestricted: if asked.extended_dynamic_state3 {
            Some(answers.dynamic_primitive_topology_unrestricted == vulkan::TRUE)
        } else {
            None
        },
        extended_dynamic_state3_polygon_mode: yes(
            asked.extended_dynamic_state3,
            answers.extended_dynamic_state3_polygon_mode,
        ),
        extended_dynamic_state3_depth_clamp_enable: yes(
            asked.extended_dynamic_state3,
            answers.extended_dynamic_state3_depth_clamp_enable,
        ),
        vertex_attribute_instance_rate_divisor: yes(
            asked.divisor,
            answers.vertex_attribute_instance_rate_divisor,
        ),
        vertex_attribute_instance_rate_zero_divisor: yes(
            asked.divisor,
            answers.vertex_attribute_instance_rate_zero_divisor,
        ),
        max_vertex_attrib_divisor: if asked.divisor_properties is Neither {
            0
        } else {
            answers.max_vertex_attrib_divisor
        },
        vertex_formats: answers.vertex_formats,
        dual_src_blend: yes(true, answers.dual_src_blend),
        independent_blend: yes(true, answers.independent_blend),
        sampler_mirror_clamp_to_edge: yes(true, answers.sampler_mirror_clamp_to_edge),
        mesh_shader: yes(asked.mesh_shader, answers.mesh_shader),
        descriptor_buffer: yes(asked.descriptor_buffer, answers.descriptor_buffer),
        push_descriptor: asked.push_descriptor,
        max_push_descriptors: if asked.push_descriptor {
            answers.max_push_descriptors
        } else {
            0
        },
        max_buffer_size: if asked.max_buffer_size {
            Some(answers.max_buffer_size)
        } else {
            None
        },
        host_pointer_importable: asked.external_memory_host && answers.host_allocation_importable,
        min_imported_host_pointer_alignment: if asked.external_memory_host {
            answers.min_imported_host_pointer_alignment
        } else {
            0
        },
        topology: answers.topology,
    }
}

fn agreed(asked: bool, answer: u32) -> (agreed: bool)
    ensures
        agreed == yes(asked, answer),
{
    asked && answer == vulkan::TRUE
}

/// What a survey and its answers report.
#[must_use]
pub fn report(survey: Survey, answers: Answers) -> (facts: Reported)
    ensures
        facts == reported(survey, answers),
{
    let asked = survey.questions;
    Reported {
        api_version: survey.effective,
        swapchain: asked.swapchain,
        timeline_semaphore: agreed(true, answers.timeline_semaphore),
        synchronization2: agreed(asked.synchronization2, answers.synchronization2),
        dynamic_rendering: agreed(asked.dynamic_rendering, answers.dynamic_rendering),
        depth_clamp: agreed(true, answers.depth_clamp),
        fill_mode_non_solid: agreed(true, answers.fill_mode_non_solid),
        wide_lines: agreed(true, answers.wide_lines),
        min_line_width: answers.min_line_width,
        max_line_width: answers.max_line_width,
        multi_viewport: agreed(true, answers.multi_viewport),
        max_viewports: answers.max_viewports,
        sampler_anisotropy: agreed(true, answers.sampler_anisotropy),
        max_sampler_anisotropy: answers.max_sampler_anisotropy,
        extended_dynamic_state: agreed(
            asked.extended_dynamic_state,
            answers.extended_dynamic_state,
        ),
        dynamic_primitive_topology_unrestricted: if asked.extended_dynamic_state3 {
            Some(answers.dynamic_primitive_topology_unrestricted == vulkan::TRUE)
        } else {
            None
        },
        extended_dynamic_state3_polygon_mode: agreed(
            asked.extended_dynamic_state3,
            answers.extended_dynamic_state3_polygon_mode,
        ),
        extended_dynamic_state3_depth_clamp_enable: agreed(
            asked.extended_dynamic_state3,
            answers.extended_dynamic_state3_depth_clamp_enable,
        ),
        vertex_attribute_instance_rate_divisor: agreed(
            asked.divisor,
            answers.vertex_attribute_instance_rate_divisor,
        ),
        vertex_attribute_instance_rate_zero_divisor: agreed(
            asked.divisor,
            answers.vertex_attribute_instance_rate_zero_divisor,
        ),
        max_vertex_attrib_divisor: match asked.divisor_properties {
            DivisorProperties::Neither => 0,
            _ => answers.max_vertex_attrib_divisor,
        },
        vertex_formats: answers.vertex_formats,
        dual_src_blend: agreed(true, answers.dual_src_blend),
        independent_blend: agreed(true, answers.independent_blend),
        sampler_mirror_clamp_to_edge: agreed(true, answers.sampler_mirror_clamp_to_edge),
        mesh_shader: agreed(asked.mesh_shader, answers.mesh_shader),
        descriptor_buffer: agreed(asked.descriptor_buffer, answers.descriptor_buffer),
        push_descriptor: asked.push_descriptor,
        max_push_descriptors: if asked.push_descriptor {
            answers.max_push_descriptors
        } else {
            0
        },
        max_buffer_size: if asked.max_buffer_size {
            Some(answers.max_buffer_size)
        } else {
            None
        },
        host_pointer_importable: asked.external_memory_host && answers.host_allocation_importable,
        min_imported_host_pointer_alignment: if asked.external_memory_host {
            answers.min_imported_host_pointer_alignment
        } else {
            0
        },
        topology: answers.topology,
    }
}

/// Judge one physical device: its class, and what the census makes of it. A
/// device that could not be surveyed has answered nothing.
pub fn judge(
    index: usize,
    device_type: i32,
    answered: Result<(Survey, Answers), Floor>,
    families: &[Family],
) -> (candidate: Candidate)
    ensures
        candidate.index == index,
        candidate.class == DeviceClass::class_of(device_type),
        match answered {
            Err(floor) => candidate.verdict == Err::<Census, Floor>(floor),
            Ok((survey, answers)) => match floor(reported(survey, answers), families@) {
                Some(floor) => candidate.verdict == Err::<Census, Floor>(floor),
                None => candidate.verdict is Ok && candidate.verdict->Ok_0.facts() == reported(
                    survey,
                    answers,
                ) && candidate.verdict->Ok_0.family().is_choice_from(families@),
            },
        },
{
    let class = DeviceClass::of(device_type);
    let verdict = match answered {
        Err(floor) => Err(floor),
        Ok((survey, answers)) => Census::take(report(survey, answers), families),
    };
    Candidate { index, class, verdict }
}

/// A device is told apart by what it answered to what it was asked: a fact
/// that was not asked is never admitted, whatever its field holds.
pub proof fn law_nothing_unasked_is_admitted(survey: Survey, answers: Answers)
    ensures
        ({
            let asked = survey.questions;
            let facts = reported(survey, answers);
            &&& facts.mesh_shader ==> asked.mesh_shader
            &&& facts.descriptor_buffer ==> asked.descriptor_buffer
            &&& facts.synchronization2 ==> asked.synchronization2
            &&& facts.dynamic_rendering ==> asked.dynamic_rendering
            &&& facts.extended_dynamic_state ==> asked.extended_dynamic_state
            &&& facts.extended_dynamic_state3_polygon_mode ==> asked.extended_dynamic_state3
            &&& facts.extended_dynamic_state3_depth_clamp_enable ==> asked.extended_dynamic_state3
            &&& facts.dynamic_primitive_topology_unrestricted is Some
                <==> asked.extended_dynamic_state3
            &&& facts.vertex_attribute_instance_rate_divisor ==> asked.divisor
            &&& facts.max_push_descriptors > 0 ==> asked.push_descriptor
            &&& facts.max_buffer_size is Some <==> asked.max_buffer_size
            &&& facts.host_pointer_importable ==> asked.external_memory_host
        }),
{
}

/// Nothing below the baseline is ever admitted, and a device is judged at no
/// more than the version the instance asked for.
pub proof fn law_the_usable_version_is_the_lesser(
    device: u32,
    requested: u32,
    survey: Survey,
    answers: Answers,
    families: Seq<Family>,
)
    requires
        survey.effective == if device < requested {
            device
        } else {
            requested
        },
        floor(reported(survey, answers), families) is None,
    ensures
        reported(survey, answers).api_version <= requested,
        reported(survey, answers).api_version <= device,
        ApiVersion::unpacked(reported(survey, answers).api_version).reaches(1, 2),
{
}

/// The word with one bit for each format a device reads, in order.
pub open spec fn format_bits(supported: Seq<bool>) -> nat
    decreases supported.len(),
{
    if supported.len() == 0 {
        0
    } else {
        2 * format_bits(supported.skip(1)) + if supported[0] {
            1nat
        } else {
            0nat
        }
    }
}

/// Pack what a device said of each vertex format into one word.
#[must_use]
pub fn format_word(supported: &[bool]) -> (word: u64)
    requires
        supported@.len() <= 64,
    ensures
        word == format_bits(supported@),
{
    let mut word: u64 = 0;
    let mut at: usize = supported.len();
    proof {
        assert(supported@.skip(at as int) =~= Seq::empty());
        vstd::arithmetic::power2::lemma2_to64();
    }
    while at > 0
        invariant
            at <= supported@.len() <= 64,
            word == format_bits(supported@.skip(at as int)),
            word < vstd::arithmetic::power2::pow2((supported@.len() - at) as nat),
        decreases at,
    {
        proof {
            assert(supported@.skip(at - 1).skip(1) =~= supported@.skip(at as int));
            vstd::arithmetic::power2::lemma_pow2_unfold((supported@.len() - at + 1) as nat);
            vstd::arithmetic::power2::lemma2_to64();
            if supported@.len() - at + 1 < 64 {
                vstd::arithmetic::power2::lemma_pow2_strictly_increases(
                    (supported@.len() - at + 1) as nat,
                    64,
                );
            }
        }
        at = at - 1;
        word = 2 * word + if supported[at] {
            1
        } else {
            0
        };
    }
    assert(supported@.skip(0) =~= supported@);
    word
}

/// No two failures share a slug.
pub proof fn law_every_failure_names_itself(a: OpenFailure, b: OpenFailure)
    ensures
        a.slug_text() == b.slug_text() ==> {
            &&& a is NoLoader <==> b is NoLoader
            &&& a is LoaderBelowBaseline <==> b is LoaderBelowBaseline
            &&& a is CreateInstance <==> b is CreateInstance
            &&& a is EnumerateDevices <==> b is EnumerateDevices
            &&& a is NoDevice <==> b is NoDevice
        },
{
    reveal_strlit("vk_host_no_loader");
    reveal_strlit("vk_host_loader_below_baseline");
    reveal_strlit("vk_host_create_instance");
    reveal_strlit("vk_host_enumerate_devices");
    reveal_strlit("vk_host_no_usable_device");
    assert("vk_host_no_loader"@.len() == 17);
    assert("vk_host_loader_below_baseline"@.len() == 29);
    assert("vk_host_create_instance"@.len() == 23);
    assert("vk_host_enumerate_devices"@.len() == 25);
    assert("vk_host_no_usable_device"@.len() == 24);
}

/// A class is read off the number Vulkan gives it, and any other number is no
/// class in particular.
pub proof fn law_a_class_is_read_off_its_number(reported: i32, class: DeviceClass)
    requires
        call_ensures(DeviceClass::of, (reported,), class),
    ensures
        class is Integrated <==> reported == 1,
        class is Discrete <==> reported == 2,
        class is Virtual <==> reported == 3,
        class is Cpu <==> reported == 4,
{
}

/// A discrete device is preferred to every other, then an integrated one, then
/// a virtual one, and a CPU is preferred to none.
pub proof fn law_classes_are_preferred_in_order(
    a: DeviceClass,
    b: DeviceClass,
    of_a: u8,
    of_b: u8,
)
    requires
        call_ensures(DeviceClass::rank, (a,), of_a),
        call_ensures(DeviceClass::rank, (b,), of_b),
        a != b,
    ensures
        a is Discrete ==> of_a > of_b,
        a is Integrated && !(b is Discrete) ==> of_a > of_b,
        a is Virtual && (b is Other || b is Cpu) ==> of_a > of_b,
        b is Cpu ==> of_a > of_b,
{
}

/// The device bound is an admitted one that no admitted device is preferred to,
/// and among equals the first enumerated. None is bound exactly where none was
/// admitted, and then each one's reason is given, in order.
pub proof fn law_the_most_preferred_admitted_device_is_bound(
    candidates: &[Candidate],
    answer: Result<Candidate, NoDevice>,
    other: int,
)
    requires
        call_ensures(select, (candidates,), answer),
        0 <= other < candidates@.len(),
    ensures
        answer matches Ok(bound) ==> candidates@.contains(bound) && bound.verdict is Ok,
        answer matches Ok(bound) ==> {
            let rival = candidates@[other];
            rival.verdict is Ok ==> bound.class.preference() > rival.class.preference() || (
            bound.class.preference() == rival.class.preference() && bound.index <= rival.index)
        },
        candidates@[other].verdict is Ok ==> answer is Ok,
        answer matches Err(failure) ==> failure.enumerated == candidates@.len()
            && failure.floors@.len() == candidates@.len() && candidates@[other].verdict == Err::<
            Census,
            Floor,
        >(failure.floors@[other]),
{
    match answer {
        Ok(bound) => {
            let at = choose|at: int| #[trigger]
                is_best(candidates@, at) && candidates@[at] == bound;
            if candidates@[other].verdict is Ok {
                law_the_best_class_wins(candidates@, at, other);
            }
        },
        Err(failure) => {
            lemma_every_floor_is_given(candidates@);
        },
    }
}

proof fn lemma_every_floor_is_given(candidates: Seq<Candidate>)
    requires
        forall|i: int| 0 <= i < candidates.len() ==> (#[trigger] candidates[i]).verdict is Err,
    ensures
        floors_of(candidates).len() == candidates.len(),
        forall|i: int|
            0 <= i < candidates.len() ==> (#[trigger] candidates[i]).verdict == Err::<
                Census,
                Floor,
            >(floors_of(candidates)[i]),
    decreases candidates.len(),
{
    if candidates.len() > 0 {
        let earlier = candidates.drop_last();
        assert forall|i: int| 0 <= i < earlier.len() implies (#[trigger] earlier[i]).verdict is Err by {
            assert(candidates[i].verdict is Err);
        }
        lemma_every_floor_is_given(earlier);
        assert(candidates[candidates.len() - 1].verdict is Err);
        assert forall|i: int| 0 <= i < candidates.len() implies (
        #[trigger] candidates[i]).verdict == Err::<Census, Floor>(floors_of(candidates)[i]) by {
            if i < earlier.len() {
                assert(earlier[i] == candidates[i]);
            }
        }
    }
}

/// An instance is created with the loader's own version, from 1.2 on: what is
/// asked for has the major and the minor version the loader answered. Below
/// that, or where it answers nothing, the loader is refused by its version, and
/// an error of its own is passed on.
pub proof fn law_the_loaders_own_version_is_asked_for(
    answered: Result<Option<u32>, i32>,
    requested: Result<u32, OpenFailure>,
    version: ApiVersion,
    asked: ApiVersion,
    current: bool,
)
    requires
        call_ensures(requested_api, (answered,), requested),
        answered matches Ok(Some(packed)) ==> call_ensures(ApiVersion::decode, (packed,), version),
        call_ensures(ApiVersion::at_least, (version, 1, 2), current),
        requested matches Ok(word) ==> call_ensures(ApiVersion::decode, (word,), asked),
    ensures
        requested is Ok <==> answered is Ok && answered->Ok_0 is Some && current,
        requested is Ok ==> asked == version,
        answered matches Err(result) ==> requested == Err::<u32, OpenFailure>(
            OpenFailure::CreateInstance { result },
        ),
        answered matches Ok(None) ==> requested == Err::<u32, OpenFailure>(
            OpenFailure::LoaderBelowBaseline { reported: ApiVersion { major: 1, minor: 0 } },
        ),
        answered is Ok && answered->Ok_0 is Some && !current ==> requested == Err::<
            u32,
            OpenFailure,
        >(OpenFailure::LoaderBelowBaseline { reported: version }),
{
    if let Ok(Some(packed)) = answered {
        assert((packed >> 22) & 0x7f < 128 && (packed >> 12) & 0x3ff < 1024) by (bit_vector);
        crate::census::law_a_version_survives_packing(version);
    }
}

/// A name is what stands before its first zero.
pub proof fn law_a_name_ends_at_its_first_zero(bytes: Seq<u8>)
    ensures
        until_zero(bytes).len() <= bytes.len(),
        forall|i: int|
            0 <= i < until_zero(bytes).len() ==> #[trigger] until_zero(bytes)[i] == bytes[i]
                && bytes[i] != 0,
        until_zero(bytes).len() < bytes.len() ==> bytes[until_zero(bytes).len() as int] == 0,
    decreases bytes.len(),
{
    if bytes.len() > 0 && bytes[0] != 0 {
        let rest = bytes.skip(1);
        law_a_name_ends_at_its_first_zero(rest);
        assert forall|i: int| 0 <= i < until_zero(bytes).len() implies #[trigger] until_zero(
            bytes,
        )[i] == bytes[i] && bytes[i] != 0 by {
            if i > 0 {
                assert(until_zero(rest)[i - 1] == rest[i - 1]);
            }
        }
    }
}

/// Each enumerated name that is text is kept, in order, and one that is not is
/// left out; where all of them are, each stands in its own place.
pub proof fn law_names_keep_their_order(
    raw: Vec<Vec<u8>>,
    answer: Result<Vec<String>, Floor>,
    result: i32,
    at: int,
)
    requires
        0 <= at < raw@.len(),
    ensures
        call_ensures(enumerated_names, (Ok::<Vec<Vec<u8>>, i32>(raw),), answer) ==> answer is Ok
            && answer->Ok_0@.len() <= raw@.len() && ((forall|i: int|
            0 <= i < raw@.len() ==> vstd::utf8::valid_utf8(until_zero((#[trigger] raw@[i])@)))
            ==> answer->Ok_0@.len() == raw@.len() && answer->Ok_0@[at]@ == vstd::utf8::decode_utf8(
            until_zero(raw@[at]@),
        )),
        call_ensures(enumerated_names, (Err::<Vec<Vec<u8>>, i32>(result),), answer) ==> answer
            == Err::<Vec<String>, Floor>(Floor::Unenumerable { result }),
{
    lemma_names_in_place(raw@);
    if call_ensures(enumerated_names, (Ok::<Vec<Vec<u8>>, i32>(raw),), answer) {
        let names = answer->Ok_0@;
        assert(texts(names).len() == names.len());
        if at < names.len() {
            assert(texts(names)[at] == names[at]@);
        }
    }
}

proof fn lemma_names_in_place(raw: Seq<Vec<u8>>)
    ensures
        decoded_names(raw).len() <= raw.len(),
        (forall|i: int|
            0 <= i < raw.len() ==> vstd::utf8::valid_utf8(until_zero((#[trigger] raw[i])@)))
            ==> decoded_names(raw).len() == raw.len() && forall|i: int|
            0 <= i < raw.len() ==> #[trigger] decoded_names(raw)[i] == vstd::utf8::decode_utf8(
                until_zero(raw[i]@),
            ),
    decreases raw.len(),
{
    if raw.len() > 0 {
        let earlier = raw.drop_last();
        lemma_names_in_place(earlier);
        if forall|i: int|
            0 <= i < raw.len() ==> vstd::utf8::valid_utf8(until_zero((#[trigger] raw[i])@)) {
            assert forall|i: int| 0 <= i < earlier.len() implies vstd::utf8::valid_utf8(
                until_zero((#[trigger] earlier[i])@),
            ) by {
                assert(raw[i] == earlier[i]);
            }
            assert(raw[raw.len() - 1] == raw.last());
        }
    }
}

/// A device is judged by the lesser of its own version and the one asked for,
/// and is asked only about what it enumerated or what its version made core:
/// each question by the name of its own extension.
pub proof fn law_each_question_has_its_own_extension(
    device: u32,
    requested: u32,
    effective: u32,
    raw: Vec<Vec<u8>>,
    surveyed: Result<Survey, Floor>,
    version: ApiVersion,
    modern: bool,
    latest: bool,
)
    requires
        call_ensures(effective_api, (device, requested), effective),
        call_ensures(survey, (device, requested, Ok::<Vec<Vec<u8>>, i32>(raw)), surveyed),
        call_ensures(ApiVersion::decode, (effective,), version),
        call_ensures(ApiVersion::at_least, (version, 1, 3), modern),
        call_ensures(ApiVersion::at_least, (version, 1, 4), latest),
    ensures
        effective <= device,
        effective <= requested,
        effective == device || effective == requested,
        surveyed is Ok,
        ({
            let asked = surveyed->Ok_0.questions;
            let named = decoded_names(raw@);
            let khr = named.contains("VK_KHR_vertex_attribute_divisor"@);
            let ext = named.contains("VK_EXT_vertex_attribute_divisor"@);
            &&& surveyed->Ok_0.effective == effective
            &&& asked.mesh_shader <==> named.contains("VK_EXT_mesh_shader"@)
            &&& asked.descriptor_buffer <==> named.contains("VK_EXT_descriptor_buffer"@)
            &&& asked.synchronization2 <==> named.contains("VK_KHR_synchronization2"@)
            &&& asked.dynamic_rendering <==> named.contains("VK_KHR_dynamic_rendering"@)
            &&& asked.extended_dynamic_state <==> named.contains("VK_EXT_extended_dynamic_state"@)
            &&& asked.extended_dynamic_state3 <==> named.contains("VK_EXT_extended_dynamic_state3"@)
            &&& asked.push_descriptor <==> named.contains("VK_KHR_push_descriptor"@)
            &&& asked.external_memory_host <==> named.contains("VK_EXT_external_memory_host"@)
            &&& asked.swapchain <==> named.contains("VK_KHR_swapchain"@)
            &&& asked.max_buffer_size <==> modern || named.contains("VK_KHR_maintenance4"@)
            &&& asked.divisor <==> latest || khr || ext
            &&& asked.divisor_properties is Khr <==> latest || khr
            &&& asked.divisor_properties is Ext <==> !latest && !khr && ext
        }),
{
}

/// Each fact reported is the device's own answer to its own question: a yes is
/// a word of one, and what was not asked is absent whatever its field holds.
pub proof fn law_each_fact_is_its_own_answer(
    survey: Survey,
    answers: Answers,
    facts: Reported,
)
    requires
        call_ensures(report, (survey, answers), facts),
    ensures
        ({
            let asked = survey.questions;
            &&& facts.api_version == survey.effective
            &&& facts.swapchain == asked.swapchain
            &&& facts.push_descriptor == asked.push_descriptor
            &&& facts.timeline_semaphore <==> answers.timeline_semaphore == 1
            &&& facts.depth_clamp <==> answers.depth_clamp == 1
            &&& facts.fill_mode_non_solid <==> answers.fill_mode_non_solid == 1
            &&& facts.wide_lines <==> answers.wide_lines == 1
            &&& facts.multi_viewport <==> answers.multi_viewport == 1
            &&& facts.sampler_anisotropy <==> answers.sampler_anisotropy == 1
            &&& facts.dual_src_blend <==> answers.dual_src_blend == 1
            &&& facts.independent_blend <==> answers.independent_blend == 1
            &&& facts.sampler_mirror_clamp_to_edge <==> answers.sampler_mirror_clamp_to_edge == 1
            &&& facts.min_line_width == answers.min_line_width
            &&& facts.max_line_width == answers.max_line_width
            &&& facts.max_viewports == answers.max_viewports
            &&& facts.max_sampler_anisotropy == answers.max_sampler_anisotropy
            &&& facts.vertex_formats == answers.vertex_formats
            &&& facts.topology == answers.topology
            &&& facts.synchronization2 <==> asked.synchronization2 && answers.synchronization2 == 1
            &&& facts.dynamic_rendering <==> asked.dynamic_rendering && answers.dynamic_rendering == 1
            &&& facts.extended_dynamic_state <==> asked.extended_dynamic_state && answers.extended_dynamic_state == 1
            &&& facts.extended_dynamic_state3_polygon_mode <==> asked.extended_dynamic_state3 && answers.extended_dynamic_state3_polygon_mode == 1
            &&& facts.extended_dynamic_state3_depth_clamp_enable <==> asked.extended_dynamic_state3 && answers.extended_dynamic_state3_depth_clamp_enable == 1
            &&& facts.vertex_attribute_instance_rate_divisor <==> asked.divisor && answers.vertex_attribute_instance_rate_divisor == 1
            &&& facts.vertex_attribute_instance_rate_zero_divisor <==> asked.divisor && answers.vertex_attribute_instance_rate_zero_divisor == 1
            &&& facts.mesh_shader <==> asked.mesh_shader && answers.mesh_shader == 1
            &&& facts.descriptor_buffer <==> asked.descriptor_buffer && answers.descriptor_buffer == 1
            &&& facts.dynamic_primitive_topology_unrestricted is Some
                <==> asked.extended_dynamic_state3
            &&& facts.dynamic_primitive_topology_unrestricted matches Some(unrestricted) ==> (
            unrestricted <==> answers.dynamic_primitive_topology_unrestricted == 1)
            &&& facts.max_vertex_attrib_divisor == if asked.divisor_properties is Neither {
                0
            } else {
                answers.max_vertex_attrib_divisor
            }
            &&& facts.max_push_descriptors == if asked.push_descriptor {
                answers.max_push_descriptors
            } else {
                0
            }
            &&& facts.max_buffer_size is Some <==> asked.max_buffer_size
            &&& facts.max_buffer_size matches Some(max) ==> max == answers.max_buffer_size
            &&& facts.host_pointer_importable <==> asked.external_memory_host
                && answers.host_allocation_importable
            &&& facts.min_imported_host_pointer_alignment == if asked.external_memory_host {
                answers.min_imported_host_pointer_alignment
            } else {
                0
            }
        }),
{
}

/// A judged device keeps its place and its class, and its verdict is the
/// census's on what it reported; one that could not be surveyed keeps the reason
/// it could not.
pub proof fn law_a_device_is_judged_by_what_it_reported(
    index: usize,
    device_type: i32,
    survey: Survey,
    answers: Answers,
    facts: Reported,
    families: &[Family],
    class: DeviceClass,
    verdict: Result<Census, Floor>,
    floor: Floor,
    candidate: Candidate,
)
    requires
        call_ensures(DeviceClass::of, (device_type,), class),
        call_ensures(report, (survey, answers), facts),
        call_ensures(Census::take, (facts, families), verdict),
    ensures
        call_ensures(
            judge,
            (index, device_type, Ok::<(Survey, Answers), Floor>((survey, answers)), families),
            candidate,
        ) ==> {
            &&& candidate.index == index
            &&& candidate.class == class
            &&& candidate.verdict is Ok <==> verdict is Ok
            &&& verdict matches Err(floor) ==> candidate.verdict == Err::<Census, Floor>(floor)
            &&& verdict matches Ok(census) ==> candidate.verdict->Ok_0.facts() == census.facts()
                && candidate.verdict->Ok_0.family().family() == census.family().family()
                && candidate.verdict->Ok_0.family().copy_engine() == census.family().copy_engine()
                && candidate.verdict->Ok_0.family().reported() == census.family().reported()
        },
        call_ensures(
            judge,
            (index, device_type, Err::<(Survey, Answers), Floor>(floor), families),
            candidate,
        ) ==> candidate.index == index && candidate.class == class && candidate.verdict == Err::<
            Census,
            Floor,
        >(floor),
{
}

/// The word packed from a list of formats has the bit of each format set exactly
/// where the device reads it.
pub proof fn law_each_format_has_its_own_bit(supported: &[bool], word: u64, at: int)
    requires
        call_ensures(format_word, (supported,), word),
        0 <= at < supported@.len(),
    ensures
        word as int / vstd::arithmetic::power2::pow2(at as nat) as int % 2 == 1 <==> supported@[at],
{
    lemma_format_bit(supported@, at);
}

proof fn lemma_format_bit(supported: Seq<bool>, at: int)
    requires
        0 <= at < supported.len(),
    ensures
        format_bits(supported) as int / vstd::arithmetic::power2::pow2(at as nat) as int % 2 == 1
            <==> supported[at],
    decreases at,
{
    let bits = format_bits(supported) as int;
    let rest = format_bits(supported.skip(1)) as int;
    let first: int = if supported[0] {
        1
    } else {
        0
    };
    assert(bits == 2 * rest + first);
    if at == 0 {
        vstd::arithmetic::power2::lemma2_to64();
        assert(bits / 1 == bits);
        assert(bits % 2 == first);
    } else {
        lemma_format_bit(supported.skip(1), at - 1);
        assert(supported.skip(1)[at - 1] == supported[at]);
        let half = vstd::arithmetic::power2::pow2((at - 1) as nat) as int;
        vstd::arithmetic::power2::lemma_pow2_unfold(at as nat);
        vstd::arithmetic::power2::lemma_pow2_pos((at - 1) as nat);
        vstd::arithmetic::div_mod::lemma_div_denominator(bits, 2, half);
        assert(bits / 2 == rest);
        assert(vstd::arithmetic::power2::pow2(at as nat) == 2 * half);
    }
}

/// A class is called by its name.
pub proof fn law_a_class_is_called_by_its_name(value: DeviceClass, name: &'static str)
    requires
        call_ensures(DeviceClass::slug, (value,), name),
    ensures
        value is Discrete ==> name@ == "discrete"@,
        value is Integrated ==> name@ == "integrated"@,
        value is Virtual ==> name@ == "virtual"@,
        value is Cpu ==> name@ == "cpu"@,
        value is Other ==> name@ == "other"@,
{
}

} // verus!
