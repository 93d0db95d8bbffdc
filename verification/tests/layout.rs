//! Transitions chain, and ownership moves carry their dependency.

use reims_vgpu_vulkan::layout::{Contents, Decline, ImageId, LayoutTracker, Subresource, Use};
use reims_vgpu_vulkan::vulkan as vk;
use std::collections::HashMap;

/// Whether `set` holds every bit of `bits`.
fn contains(set: u64, bits: u64) -> bool {
    set & bits == bits
}

const IMG: ImageId = ImageId(1);

fn tracker() -> LayoutTracker {
    let mut t = LayoutTracker::new();
    t.declare(IMG, 3, 2, 1, Some(0));
    t
}

/// A fresh image is `UNDEFINED`, which is what `vkCreateImage` leaves it in
/// — not the layout of its first use.
#[test]
fn a_fresh_subresource_is_undefined_and_its_first_use_transitions_from_there() {
    let mut t = tracker();
    assert_eq!(
        t.layout(IMG, Subresource::new(0, 0)),
        Ok(vk::ImageLayout::Undefined)
    );
    let transition = t
        .plan(
            IMG,
            Subresource::new(0, 0),
            Use::ColorAttachment,
            Contents::Keep,
        )
        .expect("declared")
        .expect("a transition is needed");
    assert_eq!(transition.from, vk::ImageLayout::Undefined);
    assert_eq!(transition.to, vk::ImageLayout::ColorAttachmentOptimal);
    assert_eq!(
        transition.src_stages,
        vk::stage2::NONE,
        "nothing has touched it, so there is nothing to wait for"
    );
    assert!(!transition.discarded_contents, "the caller did not ask to");
}

/// The steady state, and the reason the tracker earns its keep.
#[test]
fn a_use_in_the_layout_it_is_already_in_needs_no_transition() {
    let mut t = tracker();
    let sub = Subresource::new(0, 0);
    assert!(t
        .plan(IMG, sub, Use::SampledRead, Contents::Keep)
        .expect("declared")
        .is_some_and(|t| t.to == vk::ImageLayout::ShaderReadOnlyOptimal));
    for _ in 0..10 {
        assert_eq!(t.plan(IMG, sub, Use::SampledRead, Contents::Keep), Ok(None));
    }
    assert_eq!(t.census().transitions, 1);
    assert_eq!(t.census().already_in_layout, 10);
}

/// The next transition's source half is the last use, not a guess and not
/// `ALL_COMMANDS`.
#[test]
fn a_transition_waits_for_the_use_that_came_before_it() {
    let mut t = tracker();
    let sub = Subresource::new(1, 0);
    t.plan(IMG, sub, Use::ColorAttachment, Contents::Keep)
        .expect("declared");
    let transition = t
        .plan(IMG, sub, Use::SampledRead, Contents::Keep)
        .expect("declared")
        .expect("colour attachment to shader read is a transition");
    assert_eq!(transition.from, vk::ImageLayout::ColorAttachmentOptimal);
    assert_eq!(transition.to, vk::ImageLayout::ShaderReadOnlyOptimal);
    assert_eq!(
        transition.src_stages,
        vk::stage2::COLOR_ATTACHMENT_OUTPUT
    );
    assert!(contains(transition.src_access, vk::access2::COLOR_ATTACHMENT_WRITE));
    assert!(contains(transition.dst_access, vk::access2::SHADER_SAMPLED_READ));
}

/// A depth or stencil access happens in the early *and* the late fragment
/// test stages, and which one a given draw used is a property of its
/// pipeline rather than of the layout. So a transition sourced at a depth
/// use has to wait for both: a fragment shader that discards or writes
/// `gl_FragDepth` forces the test late, and a source mask naming only the
/// early stage lets the sample below read the depth buffer while the late
/// stage is still writing it.
#[test]
fn a_depth_use_names_both_fragment_test_stages() {
    const BOTH: u64 = vk::stage2::EARLY_FRAGMENT_TESTS | vk::stage2::LATE_FRAGMENT_TESTS;
    assert_eq!(Use::DepthStencilAttachment.stages(), BOTH);
    assert_eq!(Use::DepthStencilRead.stages(), BOTH);

    let mut t = tracker();
    let sub = Subresource::new(1, 0);
    t.plan(IMG, sub, Use::DepthStencilAttachment, Contents::Keep)
        .expect("declared");
    let transition = t
        .plan(IMG, sub, Use::SampledRead, Contents::Keep)
        .expect("declared")
        .expect("depth attachment to shader read is a transition");
    assert_eq!(transition.src_stages, BOTH);
    assert!(contains(transition.src_access, vk::access2::DEPTH_STENCIL_ATTACHMENT_WRITE));
}

/// Discarding is the caller's decision. The saving is real and so is the
/// loss, which is why nothing here infers it from the use.
#[test]
fn a_discard_comes_out_of_undefined_and_waits_for_nothing() {
    let mut t = tracker();
    let sub = Subresource::new(0, 1);
    t.plan(IMG, sub, Use::SampledRead, Contents::Keep)
        .expect("declared");
    let transition = t
        .plan(IMG, sub, Use::ColorAttachment, Contents::Discard)
        .expect("declared")
        .expect("a discard is always a transition");
    assert_eq!(
        transition.from,
        vk::ImageLayout::Undefined,
        "the previous contents are gone"
    );
    assert_eq!(transition.src_stages, vk::stage2::NONE);
    assert_eq!(transition.src_access, vk::access2::NONE);
    assert!(transition.discarded_contents);
    assert_eq!(t.census().discards, 1);
}

/// A discard into the layout the image is already in is still a transition:
/// the point of it is telling the driver the contents are not needed, and
/// "already in the right layout" would skip exactly that.
#[test]
fn a_discard_is_a_transition_even_in_the_same_layout() {
    let mut t = tracker();
    let sub = Subresource::new(2, 1);
    t.plan(IMG, sub, Use::ColorAttachment, Contents::Keep)
        .expect("declared");
    let again = t
        .plan(IMG, sub, Use::ColorAttachment, Contents::Discard)
        .expect("declared")
        .expect("the discard is the whole request");
    assert_eq!(again.from, vk::ImageLayout::Undefined);
    assert_eq!(again.to, vk::ImageLayout::ColorAttachmentOptimal);
}

/// Subresources are tracked apart, because they are in separate layouts.
#[test]
fn subresources_have_their_own_layouts() {
    let mut t = tracker();
    t.plan(
        IMG,
        Subresource::new(0, 0),
        Use::TransferDst,
        Contents::Discard,
    )
    .expect("declared");
    assert_eq!(
        t.layout(IMG, Subresource::new(0, 0)),
        Ok(vk::ImageLayout::TransferDstOptimal)
    );
    assert_eq!(
        t.layout(IMG, Subresource::new(1, 0)),
        Ok(vk::ImageLayout::Undefined),
        "a sibling level was not moved"
    );
    assert_eq!(
        t.layout(IMG, Subresource::new(0, 1)),
        Ok(vk::ImageLayout::Undefined),
        "and neither was a sibling layer"
    );
}

/// Assuming `UNDEFINED` for an image nobody declared would discard the
/// contents of an image somebody else is tracking.
#[test]
fn an_undeclared_image_or_subresource_is_refused() {
    let mut t = tracker();
    assert_eq!(
        t.plan(
            ImageId(9),
            Subresource::new(0, 0),
            Use::SampledRead,
            Contents::Keep
        ),
        Err(Decline::UnknownImage { image: ImageId(9) })
    );
    let outside = Subresource::new(3, 0);
    assert_eq!(
        t.plan(IMG, outside, Use::SampledRead, Contents::Keep),
        Err(Decline::UnknownSubresource {
            image: IMG,
            subresource: outside
        })
    );
    assert_eq!(
        t.plan(
            IMG,
            Subresource {
                level: 0,
                layer: 0,
                plane: 1
            },
            Use::SampledRead,
            Contents::Keep
        ),
        Err(Decline::UnknownSubresource {
            image: IMG,
            subresource: Subresource {
                level: 0,
                layer: 0,
                plane: 1
            }
        }),
        "a plane the image does not have is a separate layout that does not exist"
    );
}

/// Presentation is not a pipeline stage: the image is handed to the
/// presentation engine and the dependency is a semaphore.
#[test]
fn a_present_transition_names_no_stage() {
    let mut t = tracker();
    let sub = Subresource::new(0, 0);
    t.plan(IMG, sub, Use::ColorAttachment, Contents::Discard)
        .expect("declared");
    let transition = t
        .plan(IMG, sub, Use::Present, Contents::Keep)
        .expect("declared")
        .expect("colour attachment to present is a transition");
    assert_eq!(transition.to, vk::ImageLayout::PresentSrc);
    assert_eq!(transition.dst_stages, vk::stage2::NONE);
    assert_eq!(transition.dst_access, vk::access2::NONE);
    assert!(
        contains(transition.src_access, vk::access2::COLOR_ATTACHMENT_WRITE),
        "and the write it has to wait for is still named"
    );
}

/// Both halves together, because recording one makes the contents
/// undefined.
#[test]
fn an_ownership_move_is_one_answer_with_both_families_in_it() {
    let mut t = tracker();
    let sub = Subresource::new(0, 0);
    t.plan(IMG, sub, Use::TransferDst, Contents::Discard)
        .expect("declared");
    assert_eq!(t.family(IMG, sub), Ok(Some(0)));
    let transfer = t
        .plan_family(IMG, sub, 1, Use::SampledRead)
        .expect("declared")
        .expect("family 0 to family 1");
    assert_eq!(transfer.from_family, 0);
    assert_eq!(transfer.to_family, 1);
    assert_eq!(transfer.src_stages, Use::TransferDst.stages());
    assert_eq!(transfer.src_access, Use::TransferDst.access());
    assert_eq!(transfer.dst_stages, Use::SampledRead.stages());
    assert_eq!(transfer.dst_access, Use::SampledRead.access());
    assert!(
        transfer.src_stages != 0 && transfer.dst_stages != 0,
        "a transfer with an empty half orders nothing across the queues"
    );
    assert_eq!(
        transfer.layout,
        vk::ImageLayout::TransferDstOptimal,
        "the two halves must agree on the layout, so it is one value"
    );
    assert_eq!(t.family(IMG, sub), Ok(Some(1)));
    assert_eq!(
        t.plan_family(IMG, sub, 1, Use::SampledRead),
        Ok(None),
        "the family already owns it"
    );
    assert_eq!(t.census().ownership_transfers, 1);
}

/// A `CONCURRENT` image needs no transfer, and one whose first owner was
/// never recorded must not be guessed at either way.
#[test]
fn an_image_with_no_recorded_family_refuses_an_ownership_move() {
    let mut t = LayoutTracker::new();
    t.declare(ImageId(2), 1, 1, 1, None);
    let sub = Subresource::new(0, 0);
    assert_eq!(t.family(ImageId(2), sub), Ok(None));
    assert_eq!(
        t.plan_family(ImageId(2), sub, 1, Use::SampledRead),
        Err(Decline::NoRecordedFamily { image: ImageId(2) })
    );
}

#[test]
fn a_forgotten_image_is_no_longer_tracked() {
    let mut t = tracker();
    t.forget(IMG);
    assert_eq!(
        t.layout(IMG, Subresource::new(0, 0)),
        Err(Decline::UnknownImage { image: IMG })
    );
}


/// Every use resolves to a layout, and no two uses that need different
/// treatment share one.
#[test]
fn the_uses_that_need_different_layouts_have_different_layouts() {
    let uses = [
        Use::ColorAttachment,
        Use::DepthStencilAttachment,
        Use::DepthStencilRead,
        Use::SampledRead,
        Use::Storage,
        Use::TransferSrc,
        Use::TransferDst,
        Use::Present,
    ];
    let mut layouts: Vec<vk::ImageLayout> = uses.iter().map(|u| u.layout()).collect();
    let count = layouts.len();
    layouts.sort_unstable_by_key(|l| l.as_raw());
    layouts.dedup();
    assert_eq!(layouts.len(), count, "two uses collapsed onto one layout");
    for u in uses {
        assert_ne!(
            u.layout(),
            vk::ImageLayout::Undefined,
            "no use may resolve to the layout that means 'contents gone'"
        );
    }
}

#[test]
fn layout_every_decline_has_its_own_slug() {
    let all = [
        Decline::UnknownImage { image: IMG },
        Decline::UnknownSubresource {
            image: IMG,
            subresource: Subresource::new(0, 0),
        },
        Decline::NoRecordedFamily { image: IMG },
    ];
    let mut slugs: Vec<&str> = all.iter().map(|d| d.slug()).collect();
    slugs.sort_unstable();
    let count = slugs.len();
    slugs.dedup();
    assert_eq!(slugs.len(), count);
}


struct Rng(u64);

impl Rng {
    const fn new(seed: u64) -> Self {
        Self(seed ^ 0x9E37_79B9_7F4A_7C15)
    }

    fn next(&mut self) -> u64 {
        self.0 ^= self.0 << 13;
        self.0 ^= self.0 >> 7;
        self.0 ^= self.0 << 17;
        self.0
    }

    fn below(&mut self, bound: u64) -> u64 {
        if bound == 0 {
            return 0;
        }
        self.next() % bound
    }
}

const EVERY_USE: [Use; 8] = [
    Use::ColorAttachment,
    Use::DepthStencilAttachment,
    Use::DepthStencilRead,
    Use::SampledRead,
    Use::Storage,
    Use::TransferSrc,
    Use::TransferDst,
    Use::Present,
];

/// One subresource, as the shadow holds it: the last use it was put to and
/// the family that owns it. The layout is not stored --- it is *derived*
/// from the last use, which is the point.
#[derive(Clone, Copy)]
struct ShadowSub {
    last: Option<Use>,
    family: Option<u32>,
}

impl ShadowSub {
    fn layout(self) -> vk::ImageLayout {
        self.last.map_or(vk::ImageLayout::Undefined, Use::layout)
    }

    fn src_stages(self) -> vk::PipelineStageFlags2 {
        self.last.map_or(vk::stage2::NONE, Use::stages)
    }

    fn src_access(self) -> vk::AccessFlags2 {
        self.last.map_or(vk::access2::NONE, Use::access)
    }
}

struct ShadowImage {
    levels: u32,
    layers: u32,
    planes: u32,
    subs: HashMap<Subresource, ShadowSub>,
}

#[derive(Default)]
struct Shadow {
    images: HashMap<ImageId, ShadowImage>,
}

impl Shadow {
    fn declare(
        &mut self,
        image: ImageId,
        levels: u32,
        layers: u32,
        planes: u32,
        family: Option<u32>,
    ) {
        let mut subs = HashMap::new();
        for level in 0..levels {
            for layer in 0..layers {
                for plane in 0..planes {
                    subs.insert(
                        Subresource {
                            level,
                            layer,
                            plane,
                        },
                        ShadowSub { last: None, family },
                    );
                }
            }
        }
        self.images.insert(
            image,
            ShadowImage {
                levels,
                layers,
                planes,
                subs,
            },
        );
    }

    fn get(&self, image: ImageId, sub: Subresource) -> Result<ShadowSub, Decline> {
        let img = self
            .images
            .get(&image)
            .ok_or(Decline::UnknownImage { image })?;
        if sub.level >= img.levels || sub.layer >= img.layers || sub.plane >= img.planes {
            return Err(Decline::UnknownSubresource {
                image,
                subresource: sub,
            });
        }
        Ok(img.subs[&sub])
    }

    fn projection(&self) -> Vec<(ImageId, Subresource, vk::ImageLayout, Option<u32>)> {
        let mut out = Vec::new();
        for (&id, img) in &self.images {
            for (&sub, state) in &img.subs {
                out.push((id, sub, state.layout(), state.family));
            }
        }
        out.sort_unstable_by_key(|&(id, sub, _, _)| (id, sub));
        out
    }
}

/// What the driver did, so a floor can say the sweep reached each path
/// rather than that it merely ran.
#[derive(Default)]
struct Tally {
    transitions: usize,
    steady: usize,
    discards: usize,
    moves: usize,
    already_owned: usize,
    unknown_image: usize,
    unknown_subresource: usize,
    no_recorded_family: usize,
    forgets: usize,
}

#[test]
fn a_driven_history_never_breaks_the_transition_chain() {
    let ids = [ImageId(1), ImageId(2), ImageId(3), ImageId(4)];
    let mut tally = Tally::default();

    for seed in 0..400_u64 {
        let mut rng = Rng::new(seed);
        let mut tracker = LayoutTracker::new();
        let mut shadow = Shadow::default();
        let (mut ok_plans, mut ok_discards, mut ok_moves) = (0_usize, 0_usize, 0_usize);

        for _ in 0..120 {
            let declared: Vec<ImageId> = ids
                .iter()
                .copied()
                .filter(|i| shadow.images.contains_key(i))
                .collect();
            let image = if !declared.is_empty() && rng.below(4) != 0 {
                declared[rng.below(declared.len() as u64) as usize]
            } else {
                ids[rng.below(ids.len() as u64) as usize]
            };
            let sub = match shadow.images.get(&image) {
                Some(img) if rng.below(4) != 0 => Subresource {
                    level: rng.below(u64::from(img.levels)) as u32,
                    layer: rng.below(u64::from(img.layers)) as u32,
                    plane: rng.below(u64::from(img.planes)) as u32,
                },
                _ => Subresource {
                    level: rng.below(4) as u32,
                    layer: rng.below(3) as u32,
                    plane: rng.below(2) as u32,
                },
            };

            match rng.below(40) {
                0..=2 => {
                    let levels = 1 + rng.below(3) as u32;
                    let layers = 1 + rng.below(2) as u32;
                    let planes = 1 + rng.below(2) as u32;
                    let family = if rng.below(4) == 0 {
                        None
                    } else {
                        Some(rng.below(3) as u32)
                    };
                    tracker.declare(image, levels, layers, planes, family);
                    shadow.declare(image, levels, layers, planes, family);
                }
                3 => {
                    tracker.forget(image);
                    shadow.images.remove(&image);
                    tally.forgets += 1;
                }
                4..=6 => {
                    let to = rng.below(3) as u32;
                    let before = shadow.get(image, sub);
                    match tracker.plan_family(image, sub, to, Use::SampledRead) {
                        Ok(moved) => {
                            let before = before.expect("the tracker accepted it");
                            let from = before.family.expect("an accepted move had an owner");
                            assert_eq!(
                                moved.is_some(),
                                from != to,
                                "a move to the family that already owns it is not a move"
                            );
                            if let Some(transfer) = moved {
                                assert_eq!(transfer.image, image);
                                assert_eq!(transfer.subresource, sub);
                                assert_eq!(transfer.from_family, from);
                                assert_eq!(transfer.to_family, to);
                                assert_eq!(
                                    transfer.layout,
                                    before.layout(),
                                    "an ownership move names the layout both halves are in"
                                );
                                ok_moves += 1;
                                tally.moves += 1;
                            } else {
                                tally.already_owned += 1;
                            }
                            shadow
                                .images
                                .get_mut(&image)
                                .and_then(|i| i.subs.get_mut(&sub))
                                .expect("declared")
                                .family = Some(to);
                        }
                        Err(declined) => {
                            match before {
                                Ok(state) => {
                                    assert_eq!(
                                        state.family, None,
                                        "{declined:?} on an owned subresource"
                                    );
                                    assert_eq!(declined, Decline::NoRecordedFamily { image });
                                    tally.no_recorded_family += 1;
                                }
                                Err(expected) => {
                                    assert_eq!(declined, expected);
                                    count_decline(&mut tally, declined);
                                }
                            }
                        }
                    }
                }
                7 => {
                    assert_eq!(
                        tracker.layout(image, sub),
                        shadow.get(image, sub).map(ShadowSub::layout)
                    );
                    assert_eq!(
                        tracker.family(image, sub),
                        shadow.get(image, sub).map(|s| s.family)
                    );
                }
                _ => {
                    let before = shadow.get(image, sub);
                    let use_ = match before {
                        Ok(ShadowSub {
                            last: Some(last), ..
                        }) if rng.below(5) < 2 => last,
                        _ => EVERY_USE[rng.below(EVERY_USE.len() as u64) as usize],
                    };
                    let contents = if rng.below(4) == 0 {
                        Contents::Discard
                    } else {
                        Contents::Keep
                    };
                    let discarding = contents == Contents::Discard;
                    match tracker.plan(image, sub, use_, contents) {
                        Ok(planned) => {
                            let before = before.expect("the tracker accepted it");
                            let owed = before.layout() != use_.layout() || discarding;
                            assert_eq!(
                                planned.is_some(),
                                owed,
                                "a use in the layout it is in owes no transition, \
                                 and a discard always does"
                            );
                            if let Some(t) = planned {
                                assert_eq!(t.image, image);
                                assert_eq!(t.subresource, sub);
                                assert_eq!(t.to, use_.layout());
                                assert_eq!(t.dst_stages, use_.stages());
                                assert_eq!(t.dst_access, use_.access());
                                assert_eq!(t.discarded_contents, discarding);
                                if discarding {
                                    assert_eq!(t.from, vk::ImageLayout::Undefined);
                                    assert_eq!(t.src_stages, vk::stage2::NONE);
                                    assert_eq!(t.src_access, vk::access2::NONE);
                                    ok_discards += 1;
                                    tally.discards += 1;
                                } else {
                                    assert_eq!(
                                        t.from,
                                        before.layout(),
                                        "the chain broke at {image:?} {sub:?}"
                                    );
                                    assert_eq!(t.src_stages, before.src_stages());
                                    assert_eq!(t.src_access, before.src_access());
                                    tally.transitions += 1;
                                }
                            } else {
                                tally.steady += 1;
                            }
                            ok_plans += 1;
                            shadow
                                .images
                                .get_mut(&image)
                                .and_then(|i| i.subs.get_mut(&sub))
                                .expect("declared")
                                .last = Some(use_);
                        }
                        Err(declined) => {
                            assert_eq!(Err(declined), before.map(|_| unreachable!()));
                            count_decline(&mut tally, declined);
                        }
                    }
                }
            }

            let mut seen = Vec::new();
            for (&id, img) in &shadow.images {
                for &sub in img.subs.keys() {
                    seen.push((
                        id,
                        sub,
                        tracker
                            .layout(id, sub)
                            .expect("the shadow says it is declared"),
                        tracker
                            .family(id, sub)
                            .expect("the shadow says it is declared"),
                    ));
                }
            }
            seen.sort_unstable_by_key(|&(id, sub, _, _)| (id, sub));
            assert_eq!(seen, shadow.projection());
        }

        let census = tracker.census();
        assert_eq!(census.already_in_layout + census.transitions, ok_plans);
        assert_eq!(census.discards, ok_discards);
        assert!(census.discards <= census.transitions);
        assert_eq!(census.ownership_transfers, ok_moves);
    }

    assert!(tally.transitions > 5_000, "{}", tally.transitions);
    assert!(tally.steady > 2_000, "{}", tally.steady);
    assert!(tally.discards > 2_000, "{}", tally.discards);
    assert!(tally.moves > 500, "{}", tally.moves);
    assert!(tally.already_owned > 200, "{}", tally.already_owned);
    assert!(tally.unknown_image > 5_000, "{}", tally.unknown_image);
    assert!(
        tally.unknown_subresource > 2_000,
        "{}",
        tally.unknown_subresource
    );
    assert!(
        tally.no_recorded_family > 200,
        "{}",
        tally.no_recorded_family
    );
    assert!(tally.forgets > 500, "{}", tally.forgets);
}

fn count_decline(tally: &mut Tally, declined: Decline) {
    match declined {
        Decline::UnknownImage { .. } => tally.unknown_image += 1,
        Decline::UnknownSubresource { .. } => tally.unknown_subresource += 1,
        Decline::NoRecordedFamily { .. } => tally.no_recorded_family += 1,
    }
}
