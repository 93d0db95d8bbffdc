//! What a draw has to re-emit, and — far more often — what it does not.
//!
//! A steady-state draw must not rebuild its bindings. A guest that binds the
//! same forty textures every draw is the ordinary case, so the table remembers
//! what it emitted, a bind that does not change a slot marks nothing, and
//! [`BindingTable::take_dirty`] hands back only the slots whose contents moved.
//!
//! "Same binding" is decided by comparing the semantic binding — the resource
//! identity with its generation, the offset, the stride — and never by
//! comparing native handles: two resources may occupy one handle across a
//! retire and a recreate.
//!
//! Vulkan disturbs bindings. A fresh command buffer starts with none and an
//! incompatible pipeline layout drops the ones there were. The table can
//! observe neither, so both are told to it through
//! [`BindingTable::disturb_all`].
//!
//! An unbound slot is a change. Naming no object is a different state from
//! still holding the previous one.

use crate::bits::{
    bit, lemma_lowest, lemma_mask_lowest, lemma_single, lemma_union, lemma_zero_holds_no_bit, residue,
};
use crate::guest::{BufferBinding, ObjectBinding};
use vstd::prelude::*;

verus! {

/// A set of slot indices, one bit each.
///
/// Words rather than a `Vec<bool>`: a draw asks "is anything dirty" and "which
/// slots" on every emission, and both are word operations here.
#[derive(Clone, Debug, Default, PartialEq, Eq)]
pub struct SlotMask {
    words: Vec<u64>,
}

/// Whether the bit for `slot` is set somewhere in `words`.
spec fn held(words: Seq<u64>, slot: int) -> bool {
    0 <= slot < 64 * words.len() && bit(words[slot / 64], slot % 64)
}

/// The slots of `words` below `end`.
spec fn below(words: Seq<u64>, end: int) -> Set<int> {
    Set::new(|slot: int| slot < end && held(words, slot))
}

/// The words it takes to hold `slots` bits.
spec fn words_for(slots: int) -> int {
    (slots + 63) / 64
}

/// The room of a mask made for `slots`: as many as whole words hold.
pub open spec fn room_for(slots: int) -> int {
    (slots + 63) / 64 * 64
}

impl View for SlotMask {
    type V = Set<int>;

    closed spec fn view(&self) -> Set<int> {
        Set::new(|slot: int| held(self.words@, slot))
    }
}

impl SlotMask {
    /// Every slot of the mask is a `usize`.
    pub closed spec fn wf(&self) -> bool {
        64 * self.words@.len() <= usize::MAX + 1
    }

    /// How many slots the mask holds before it has to grow. Two masks are equal
    /// when they hold the same slots and have the same room.
    pub closed spec fn room(&self) -> int {
        64 * self.words@.len() as int
    }

    /// A mask is a finite set of slot indices.
    pub proof fn lemma_slots_are_finite(&self)
        requires
            self.wf(),
        ensures
            self@.finite(),
            forall|slot: int| self@.contains(slot) ==> 0 <= slot <= usize::MAX,
    {
        vstd::set_lib::lemma_int_range(0, usize::MAX + 1);
        vstd::set_lib::lemma_len_subset(self@, vstd::set_lib::set_int_range(0, usize::MAX + 1));
    }

    /// An empty mask with room for `slots`, rounded up to whole words.
    #[must_use]
    pub fn with_capacity(slots: usize) -> (mask: Self)
        ensures
            mask.wf(),
            mask@ == Set::<int>::empty(),
            mask.room() == room_for(slots as int),
    {
        let words: usize = words_covering(slots);
        let mask = SlotMask { words: vec![0u64; words] };
        proof {
            lemma_zero_holds_no_bit();
            assert forall|slot: int| !held(mask.words@, slot) by {}
            assert(mask@ =~= Set::<int>::empty());
        }
        mask
    }

    /// Add `slot`, growing the mask where it has no room for it.
    pub fn insert(&mut self, slot: usize)
        requires
            old(self).wf(),
        ensures
            final(self).wf(),
            final(self)@ == old(self)@.insert(slot as int),
            final(self).room() == if slot < old(self).room() {
                old(self).room()
            } else {
                (slot / 64 + 1) * 64
            },
    {
        let word: usize = slot / 64;
        let at: u64 = (slot % 64) as u64;
        let ghost before = self.words@;
        proof {
            lemma_zero_holds_no_bit();
        }
        if word >= self.words.len() {
            self.words.resize(word + 1, 0);
        }
        let ghost roomy = self.words@;
        assert(forall|s: int| held(roomy, s) <==> held(before, s)) by {
            assert forall|s: int| held(roomy, s) <==> held(before, s) by {
                if 0 <= s < 64 * roomy.len() && s >= 64 * before.len() {
                    assert(roomy[s / 64] == 0);
                }
            }
        }
        proof {
            lemma_single(at);
            lemma_union(roomy[word as int], 1u64 << at);
        }
        self.words[word] = self.words[word] | (1u64 << at);
        assert(self@ =~= old(self)@.insert(slot as int)) by {
            assert forall|s: int| self@.contains(s) <==> old(self)@.insert(slot as int).contains(s) by {
                assert(held(roomy, s) <==> held(before, s));
                if 0 <= s < 64 * roomy.len() && s / 64 == word {
                    assert(s % 64 == at <==> s == slot);
                    assert(bit(self.words@[word as int], s % 64) <==> bit(
                        roomy[word as int],
                        s % 64,
                    ) || bit(1u64 << at, s % 64));
                }
            }
        }
    }

    /// Whether `slot` is in the mask.
    #[must_use]
    pub fn contains(&self, slot: usize) -> (held: bool)
        ensures
            held == self@.contains(slot as int),
    {
        let word: usize = slot / 64;
        let at: u64 = (slot % 64) as u64;
        if word < self.words.len() {
            (self.words[word] >> at) & 1 == 1
        } else {
            false
        }
    }

    /// Whether no slot is in the mask.
    #[must_use]
    pub fn is_empty(&self) -> (empty: bool)
        ensures
            empty <==> self@ == Set::<int>::empty(),
    {
        let mut word: usize = 0;
        proof {
            lemma_zero_holds_no_bit();
        }
        while word < self.words.len()
            invariant
                word <= self.words.len(),
                forall|i: int| !bit(0, i),
                forall|i: int| 0 <= i < word ==> self.words@[i] == 0,
            decreases self.words.len() - word,
        {
            if self.words[word] != 0 {
                proof {
                    let bits = self.words@[word as int];
                    lemma_lowest(bits);
                    let low = vstd::std_specs::bits::u64_trailing_zeros(bits) as int;
                    let slot = 64 * word + low;
                    assert(slot / 64 == word && slot % 64 == low);
                    assert(self@.contains(slot));
                }
                return false;
            }
            word += 1;
        }
        assert(self@ =~= Set::<int>::empty());
        true
    }

    /// How many slots are in the mask.
    #[must_use]
    pub fn len(&self) -> (count: usize)
        requires
            self.wf(),
            self@.len() <= usize::MAX,
        ensures
            count == self@.len(),
    {
        let mut count: usize = 0;
        let mut word: usize = 0;
        proof {
            self.lemma_slots_are_finite();
            assert(below(self.words@, 0) =~= Set::<int>::empty());
        }
        while word < self.words.len()
            invariant
                word <= self.words.len(),
                self@.finite(),
                self@.len() <= usize::MAX,
                below(self.words@, 64 * word).finite(),
                count == below(self.words@, 64 * word).len(),
            decreases self.words.len() - word,
        {
            let mut bits: u64 = self.words[word];
            let ghost mut from: int = 0;
            while bits != 0
                invariant
                    word < self.words.len(),
                    0 <= from <= 64,
                    residue(bits, self.words@[word as int], from),
                    self@.finite(),
                    self@.len() <= usize::MAX,
                    below(self.words@, 64 * word + from).finite(),
                    count == below(self.words@, 64 * word + from).len(),
                decreases 64 - from,
            {
                let rest: u64 = bits & (bits - 1);
                proof {
                    lemma_lowest(bits);
                    lemma_mask_lowest(bits, rest);
                    let low = vstd::std_specs::bits::u64_trailing_zeros(bits) as int;
                    self.lemma_advance(word as int, from, low);
                    from = low + 1;
                    vstd::set_lib::lemma_len_subset(below(self.words@, 64 * word + from), self@);
                }
                bits = rest;
                count += 1;
            }
            proof {
                lemma_zero_holds_no_bit();
                assert(below(self.words@, 64 * word + from) =~= below(
                    self.words@,
                    64 * (word + 1),
                )) by {
                    assert forall|s: int|
                        64 * word + from <= s < 64 * (word + 1) implies !held(self.words@, s) by {
                        assert(s / 64 == word);
                        assert(!bit(bits, s % 64));
                    }
                }
            }
            word += 1;
        }
        assert(below(self.words@, 64 * word) =~= self@);
        count
    }

    /// Walking past the next set bit of a word adds exactly that slot.
    proof fn lemma_advance(&self, word: int, from: int, low: int)
        requires
            0 <= word < self.words@.len(),
            0 <= from <= low < 64,
            bit(self.words@[word], low),
            forall|i: int| from <= i < low ==> !bit(self.words@[word], i),
            below(self.words@, 64 * word + from).finite(),
        ensures
            below(self.words@, 64 * word + low + 1) == below(self.words@, 64 * word + from).insert(
                64 * word + low,
            ),
            !below(self.words@, 64 * word + from).contains(64 * word + low),
    {
        let slot = 64 * word + low;
        assert(slot / 64 == word && slot % 64 == low);
        assert forall|s: int| 64 * word + from <= s < slot implies !held(self.words@, s) by {
            assert(s / 64 == word && s % 64 == s - 64 * word);
        }
        assert(below(self.words@, slot + 1) =~= below(self.words@, 64 * word + from).insert(slot));
    }

    /// Take every slot out.
    pub fn clear(&mut self)
        requires
            old(self).wf(),
        ensures
            final(self).wf(),
            final(self)@ == Set::<int>::empty(),
            final(self).room() == old(self).room(),
    {
        let mut word: usize = 0;
        while word < self.words.len()
            invariant
                word <= self.words.len(),
                self.words@.len() == old(self).words@.len(),
                forall|i: int| 0 <= i < word ==> self.words@[i] == 0,
            decreases self.words.len() - word,
        {
            self.words[word] = 0;
            word += 1;
        }
        proof {
            lemma_zero_holds_no_bit();
        }
        assert(self@ =~= Set::<int>::empty());
    }

    /// Make room for `slots` without disturbing the bits already held.
    fn reserve(&mut self, slots: usize)
        requires
            old(self).wf(),
        ensures
            final(self).wf(),
            final(self)@ == old(self)@,
            final(self).words@.len() >= words_for(slots as int),
            final(self).room() == if old(self).room() < room_for(slots as int) {
                room_for(slots as int)
            } else {
                old(self).room()
            },
    {
        let words: usize = words_covering(slots);
        let ghost before = self.words@;
        if self.words.len() < words {
            self.words.resize(words, 0);
            proof {
                lemma_zero_holds_no_bit();
                assert forall|s: int| held(self.words@, s) <==> held(before, s) by {
                    if 0 <= s < 64 * self.words@.len() && s >= 64 * before.len() {
                        assert(self.words@[s / 64] == 0);
                    }
                }
                assert(self@ =~= old(self)@);
            }
        }
    }

    /// The slots in the mask, ascending.
    #[must_use]
    pub fn slots(&self) -> (slots: Vec<usize>)
        requires
            self.wf(),
        ensures
            forall|i: int, j: int| 0 <= i < j < slots@.len() ==> slots@[i] < slots@[j],
            forall|i: int| 0 <= i < slots@.len() ==> self@.contains(#[trigger] slots@[i] as int),
            forall|slot: int| #[trigger]
                self@.contains(slot) ==> slots@.contains(slot as usize) && slot == slot as usize,
            slots@.len() == self@.len(),
    {
        let mut out: Vec<usize> = Vec::new();
        let mut word: usize = 0;
        assert(below(self.words@, 0) =~= Set::<int>::empty());
        while word < self.words.len()
            invariant
                word <= self.words.len(),
                self.wf(),
                ascends_below(self.words@, 64 * word, out@),
            decreases self.words.len() - word,
        {
            let mut bits: u64 = self.words[word];
            let ghost mut from: int = 0;
            while bits != 0
                invariant
                    word < self.words.len(),
                    self.wf(),
                    0 <= from <= 64,
                    residue(bits, self.words@[word as int], from),
                    ascends_below(self.words@, 64 * word + from, out@),
                decreases 64 - from,
            {
                let low: u32 = bits.trailing_zeros();
                let rest: u64 = bits & (bits - 1);
                proof {
                    lemma_lowest(bits);
                    lemma_mask_lowest(bits, rest);
                    self.lemma_advance(word as int, from, low as int);
                }
                let slot: usize = word * 64 + low as usize;
                let ghost walked = out@;
                out.push(slot);
                proof {
                    let start = below(self.words@, 64 * word + from);
                    from = low + 1;
                    let end = below(self.words@, 64 * word + from);
                    assert forall|s: int| #[trigger] end.contains(s) implies out@.contains(
                        s as usize,
                    ) && s == s as usize by {
                        if s == slot {
                            assert(out@[walked.len() as int] == slot);
                        } else {
                            assert(start.contains(s));
                            let at = choose|i: int|
                                0 <= i < walked.len() && walked[i] == s as usize;
                            assert(out@[at] == s as usize);
                        }
                    }
                }
                bits = rest;
            }
            proof {
                lemma_zero_holds_no_bit();
                assert(below(self.words@, 64 * word + from) =~= below(
                    self.words@,
                    64 * (word + 1),
                )) by {
                    assert forall|s: int|
                        64 * word + from <= s < 64 * (word + 1) implies !held(self.words@, s) by {
                        assert(s / 64 == word);
                        assert(!bit(bits, s % 64));
                    }
                }
            }
            word += 1;
        }
        assert(below(self.words@, 64 * word) =~= self@);
        out
    }
}

/// `out` lists the slots of `words` below `end`, ascending and once each.
spec fn ascends_below(words: Seq<u64>, end: int, out: Seq<usize>) -> bool {
    let set = below(words, end);
    &&& set.finite()
    &&& out.len() == set.len()
    &&& forall|i: int, j: int| 0 <= i < j < out.len() ==> out[i] < out[j]
    &&& forall|i: int| 0 <= i < out.len() ==> set.contains(#[trigger] out[i] as int)
    &&& forall|slot: int| #[trigger]
        set.contains(slot) ==> out.contains(slot as usize) && slot == slot as usize
}

/// How many words hold `slots` bits.
fn words_covering(slots: usize) -> (words: usize)
    ensures
        words == words_for(slots as int),
        64 * words <= usize::MAX + 1,
{
    let whole: usize = slots / 64;
    if slots % 64 == 0 {
        whole
    } else {
        whole + 1
    }
}

/// The slots one emission has to write.
#[derive(Clone, Debug, Default, PartialEq, Eq)]
#[must_use]
pub struct Dirty {
    pub buffers: SlotMask,
    pub textures: SlotMask,
    pub samplers: SlotMask,
}

/// The three sets of slots an emission has to write.
pub struct DirtyView {
    pub buffers: Set<int>,
    pub textures: Set<int>,
    pub samplers: Set<int>,
}

impl DirtyView {
    /// How many slots there are over the three classes.
    pub open spec fn count(self) -> nat {
        self.buffers.len() + self.textures.len() + self.samplers.len()
    }

    /// No slot of any class.
    pub open spec fn empty() -> DirtyView {
        DirtyView { buffers: Set::empty(), textures: Set::empty(), samplers: Set::empty() }
    }
}

impl View for Dirty {
    type V = DirtyView;

    open spec fn view(&self) -> DirtyView {
        DirtyView {
            buffers: self.buffers@,
            textures: self.textures@,
            samplers: self.samplers@,
        }
    }
}

impl Dirty {
    /// The three masks are well formed.
    pub open spec fn wf(&self) -> bool {
        self.buffers.wf() && self.textures.wf() && self.samplers.wf()
    }

    /// Each mask has the room of its class in `table`, and no more.
    pub open spec fn is_as_wide_as(&self, table: TableView) -> bool {
        &&& self.buffers.room() == room_for(table.buffers.held.len() as int)
        &&& self.textures.room() == room_for(table.textures.held.len() as int)
        &&& self.samplers.room() == room_for(table.samplers.held.len() as int)
    }

    /// Whether there is nothing to write.
    #[must_use]
    pub fn is_empty(&self) -> (empty: bool)
        ensures
            empty <==> self@ == DirtyView::empty(),
    {
        self.buffers.is_empty() && self.textures.is_empty() && self.samplers.is_empty()
    }

    /// How many slots there are to write.
    #[must_use]
    pub fn len(&self) -> (count: usize)
        requires
            self.wf(),
            self@.count() <= usize::MAX,
        ensures
            count == self@.count(),
    {
        self.buffers.len() + self.textures.len() + self.samplers.len()
    }
}

/// What the table has been asked for.
#[derive(Clone, Copy, Debug, Default, PartialEq, Eq, Structural)]
pub struct Census {
    /// Binds that changed a slot.
    pub changed: usize,
    /// Binds that named the value already there. The number that says what the
    /// tracker is saving.
    pub redundant: usize,
    /// Slots handed to an emission.
    pub emitted: usize,
    /// Times everything was invalidated by a command-buffer boundary or an
    /// incompatible pipeline layout.
    pub disturbances: usize,
    /// Binds that named a slot past the table and were dropped.
    ///
    /// Non-zero means either the guest contradicted its own argument-table
    /// sizes or this table was built with the wrong ones.
    pub ignored: usize,
}

impl Census {
    /// One more bind with this answer can be counted.
    pub open spec fn has_room_for(self, answer: Answer) -> bool {
        match answer {
            Answer::Changed => self.changed < usize::MAX,
            Answer::Redundant => self.redundant < usize::MAX,
            Answer::Ignored => self.ignored < usize::MAX,
        }
    }
}

/// What became of one bind.
pub enum Answer {
    Changed,
    Redundant,
    Ignored,
}

/// One class of slots: what the guest last bound to each, and which of them an
/// emission still owes a write.
pub struct ClassView<T> {
    pub held: Seq<Option<T>>,
    pub dirty: Set<int>,
}

impl<T> ClassView<T> {
    /// `width` unbound slots, none of them owed a write.
    pub open spec fn fresh(width: nat) -> Self {
        ClassView { held: Seq::new(width, |i: int| None), dirty: Set::empty() }
    }

    /// Only slots of the table are ever dirty.
    pub open spec fn wf(self) -> bool {
        forall|slot: int| #[trigger] self.dirty.contains(slot) ==> 0 <= slot < self.held.len()
    }

    /// The binding `slot` holds; a slot past the table holds none.
    pub open spec fn at(self, slot: int) -> Option<T> {
        if 0 <= slot < self.held.len() {
            self.held[slot]
        } else {
            None
        }
    }

    /// The slots that hold a binding.
    pub open spec fn bound(self) -> Set<int> {
        Set::new(|slot: int| 0 <= slot < self.held.len() && self.held[slot] is Some)
    }

    /// What becomes of binding `binding` to `slot`.
    pub open spec fn answer(self, slot: int, binding: Option<T>) -> Answer {
        if !(0 <= slot < self.held.len()) {
            Answer::Ignored
        } else if self.held[slot] == binding {
            Answer::Redundant
        } else {
            Answer::Changed
        }
    }

    /// The class after binding `binding` to `slot`: a change holds the new
    /// binding and owes a write, anything else leaves the class as it was.
    pub open spec fn bind(self, slot: int, binding: Option<T>) -> Self {
        if self.answer(slot, binding) is Changed {
            ClassView {
                held: self.held.update(slot, binding),
                dirty: self.dirty.insert(slot),
            }
        } else {
            self
        }
    }

    /// The class after its slots were handed to an emission.
    pub open spec fn emitted(self) -> Self {
        ClassView { dirty: Set::empty(), ..self }
    }

    /// The class after a disturbance: whatever is bound owes a write, and what
    /// owed one still does.
    pub open spec fn disturbed(self) -> Self {
        ClassView { dirty: self.dirty.union(self.bound()), ..self }
    }
}

/// A binding table's contents.
pub struct TableView {
    pub buffers: ClassView<BufferBinding>,
    pub textures: ClassView<ObjectBinding>,
    pub samplers: ClassView<ObjectBinding>,
    pub census: Census,
}

impl TableView {
    /// A table of three fresh classes with nothing counted.
    pub open spec fn fresh(buffers: nat, textures: nat, samplers: nat) -> TableView {
        TableView {
            buffers: ClassView::fresh(buffers),
            textures: ClassView::fresh(textures),
            samplers: ClassView::fresh(samplers),
            census: Census { changed: 0, redundant: 0, emitted: 0, disturbances: 0, ignored: 0 },
        }
    }

    /// Only slots of the table are ever dirty.
    pub open spec fn wf(self) -> bool {
        self.buffers.wf() && self.textures.wf() && self.samplers.wf()
    }

    /// What an emission would write.
    pub open spec fn dirty(self) -> DirtyView {
        DirtyView {
            buffers: self.buffers.dirty,
            textures: self.textures.dirty,
            samplers: self.samplers.dirty,
        }
    }

    /// The table after a buffer bind.
    pub open spec fn bind_buffer(self, slot: int, binding: Option<BufferBinding>) -> TableView {
        TableView {
            buffers: self.buffers.bind(slot, binding),
            census: counted(self.census, self.buffers.answer(slot, binding)),
            ..self
        }
    }

    /// The table after a texture bind.
    pub open spec fn bind_texture(self, slot: int, binding: Option<ObjectBinding>) -> TableView {
        TableView {
            textures: self.textures.bind(slot, binding),
            census: counted(self.census, self.textures.answer(slot, binding)),
            ..self
        }
    }

    /// The table after a sampler bind.
    pub open spec fn bind_sampler(self, slot: int, binding: Option<ObjectBinding>) -> TableView {
        TableView {
            samplers: self.samplers.bind(slot, binding),
            census: counted(self.census, self.samplers.answer(slot, binding)),
            ..self
        }
    }

    /// The table after an emission took its dirty slots.
    pub open spec fn emitted(self) -> TableView {
        TableView {
            buffers: self.buffers.emitted(),
            textures: self.textures.emitted(),
            samplers: self.samplers.emitted(),
            census: Census {
                emitted: (self.census.emitted + self.dirty().count()) as usize,
                ..self.census
            },
        }
    }

    /// The table after everything the driver believed is gone.
    pub open spec fn disturbed(self) -> TableView {
        TableView {
            buffers: self.buffers.disturbed(),
            textures: self.textures.disturbed(),
            samplers: self.samplers.disturbed(),
            census: Census {
                disturbances: (self.census.disturbances + 1) as usize,
                ..self.census
            },
        }
    }

    /// The table after the objects its slots named are gone.
    pub open spec fn reset(self) -> TableView {
        TableView {
            buffers: ClassView::fresh(self.buffers.held.len()),
            textures: ClassView::fresh(self.textures.held.len()),
            samplers: ClassView::fresh(self.samplers.held.len()),
            census: self.census,
        }
    }
}

/// The census with one more bind under `answer`.
pub open spec fn counted(census: Census, answer: Answer) -> Census {
    match answer {
        Answer::Changed => Census { changed: (census.changed + 1) as usize, ..census },
        Answer::Redundant => Census { redundant: (census.redundant + 1) as usize, ..census },
        Answer::Ignored => Census { ignored: (census.ignored + 1) as usize, ..census },
    }
}

/// One shader-visible table's contents and its dirty set.
#[derive(Clone, Debug)]
pub struct BindingTable {
    buffers: Vec<Option<BufferBinding>>,
    textures: Vec<Option<ObjectBinding>>,
    samplers: Vec<Option<ObjectBinding>>,
    dirty: Dirty,
    census: Census,
}

impl View for BindingTable {
    type V = TableView;

    closed spec fn view(&self) -> TableView {
        TableView {
            buffers: ClassView { held: self.buffers@, dirty: self.dirty.buffers@ },
            textures: ClassView { held: self.textures@, dirty: self.dirty.textures@ },
            samplers: ClassView { held: self.samplers@, dirty: self.dirty.samplers@ },
            census: self.census,
        }
    }
}

impl BindingTable {
    /// The masks behind the dirty set are well formed, and as wide as the table.
    pub closed spec fn masks_wf(&self) -> bool {
        self.dirty.wf() && self.dirty.is_as_wide_as(self@)
    }

    /// The table's invariant.
    pub open spec fn wf(&self) -> bool {
        self@.wf() && self.masks_wf()
    }

    /// A table with the guest's argument-table sizes, everything unbound.
    ///
    /// Nothing is dirty at construction: an unbound slot has no descriptor to
    /// write, and marking them all would make the first draw of every command
    /// buffer emit the whole table.
    #[must_use]
    pub fn new(buffers: usize, textures: usize, samplers: usize) -> (table: Self)
        ensures
            table.wf(),
            table@ == TableView::fresh(buffers as nat, textures as nat, samplers as nat),
    {
        let table = BindingTable {
            buffers: vec![None; buffers],
            textures: vec![None; textures],
            samplers: vec![None; samplers],
            dirty: Dirty {
                buffers: SlotMask::with_capacity(buffers),
                textures: SlotMask::with_capacity(textures),
                samplers: SlotMask::with_capacity(samplers),
            },
            census: Census { changed: 0, redundant: 0, emitted: 0, disturbances: 0, ignored: 0 },
        };
        proof {
            let fresh = TableView::fresh(buffers as nat, textures as nat, samplers as nat);
            assert(table@.buffers.held =~= fresh.buffers.held);
            assert(table@.textures.held =~= fresh.textures.held);
            assert(table@.samplers.held =~= fresh.samplers.held);
        }
        table
    }

    /// What the table has been asked for.
    #[must_use]
    pub fn census(&self) -> (census: Census)
        ensures
            census == self@.census,
    {
        self.census
    }

    /// Bind a buffer slot, or unbind it with `None`.
    ///
    /// Returns whether anything changed. A slot outside the table is ignored
    /// and reported as no change: the argument-table sizes are the guest's own
    /// capacity hints, and a record past them is a record about a slot no
    /// shader on this pipeline can read.
    pub fn bind_buffer(&mut self, slot: usize, binding: Option<BufferBinding>) -> (changed: bool)
        requires
            old(self).wf(),
            old(self)@.census.has_room_for(old(self)@.buffers.answer(slot as int, binding)),
        ensures
            final(self).wf(),
            changed == (old(self)@.buffers.answer(slot as int, binding) is Changed),
            final(self)@ == old(self)@.bind_buffer(slot as int, binding),
    {
        if slot >= self.buffers.len() {
            self.census.ignored = self.census.ignored + 1;
            return false;
        }
        if self.buffers[slot] == binding {
            self.census.redundant = self.census.redundant + 1;
            return false;
        }
        self.buffers[slot] = binding;
        self.dirty.buffers.insert(slot);
        self.census.changed = self.census.changed + 1;
        assert(self@.buffers == old(self)@.buffers.bind(slot as int, binding));
        true
    }

    /// Bind a texture slot, or unbind it with `None`.
    pub fn bind_texture(&mut self, slot: usize, binding: Option<ObjectBinding>) -> (changed: bool)
        requires
            old(self).wf(),
            old(self)@.census.has_room_for(old(self)@.textures.answer(slot as int, binding)),
        ensures
            final(self).wf(),
            changed == (old(self)@.textures.answer(slot as int, binding) is Changed),
            final(self)@ == old(self)@.bind_texture(slot as int, binding),
    {
        if slot >= self.textures.len() {
            self.census.ignored = self.census.ignored + 1;
            return false;
        }
        if self.textures[slot] == binding {
            self.census.redundant = self.census.redundant + 1;
            return false;
        }
        self.textures[slot] = binding;
        self.dirty.textures.insert(slot);
        self.census.changed = self.census.changed + 1;
        assert(self@.textures == old(self)@.textures.bind(slot as int, binding));
        true
    }

    /// Bind a sampler slot, or unbind it with `None`.
    pub fn bind_sampler(&mut self, slot: usize, binding: Option<ObjectBinding>) -> (changed: bool)
        requires
            old(self).wf(),
            old(self)@.census.has_room_for(old(self)@.samplers.answer(slot as int, binding)),
        ensures
            final(self).wf(),
            changed == (old(self)@.samplers.answer(slot as int, binding) is Changed),
            final(self)@ == old(self)@.bind_sampler(slot as int, binding),
    {
        if slot >= self.samplers.len() {
            self.census.ignored = self.census.ignored + 1;
            return false;
        }
        if self.samplers[slot] == binding {
            self.census.redundant = self.census.redundant + 1;
            return false;
        }
        self.samplers[slot] = binding;
        self.dirty.samplers.insert(slot);
        self.census.changed = self.census.changed + 1;
        assert(self@.samplers == old(self)@.samplers.bind(slot as int, binding));
        true
    }

    /// The buffer bound to `slot`.
    #[must_use]
    pub fn buffer(&self, slot: usize) -> (binding: Option<BufferBinding>)
        ensures
            binding == self@.buffers.at(slot as int),
    {
        if slot < self.buffers.len() {
            self.buffers[slot]
        } else {
            None
        }
    }

    /// The texture bound to `slot`.
    #[must_use]
    pub fn texture(&self, slot: usize) -> (binding: Option<ObjectBinding>)
        ensures
            binding == self@.textures.at(slot as int),
    {
        if slot < self.textures.len() {
            self.textures[slot]
        } else {
            None
        }
    }

    /// The sampler bound to `slot`.
    #[must_use]
    pub fn sampler(&self, slot: usize) -> (binding: Option<ObjectBinding>)
        ensures
            binding == self@.samplers.at(slot as int),
    {
        if slot < self.samplers.len() {
            self.samplers[slot]
        } else {
            None
        }
    }

    /// Whether an emission would write nothing.
    #[must_use]
    pub fn is_clean(&self) -> (clean: bool)
        ensures
            clean <==> self@.dirty() == DirtyView::empty(),
    {
        self.dirty.is_empty()
    }

    /// Take the slots this emission has to write, clearing the dirty set.
    ///
    /// The contents are unchanged: what was bound is still bound, and the next
    /// draw with no rebinds in between takes nothing.
    pub fn take_dirty(&mut self) -> (taken: Dirty)
        requires
            old(self).wf(),
            old(self)@.census.emitted + old(self)@.dirty().count() <= usize::MAX,
        ensures
            final(self).wf(),
            taken.wf(),
            taken@ == old(self)@.dirty(),
            taken.is_as_wide_as(old(self)@),
            final(self)@ == old(self)@.emitted(),
    {
        let mut taken = Dirty {
            buffers: SlotMask::with_capacity(self.buffers.len()),
            textures: SlotMask::with_capacity(self.textures.len()),
            samplers: SlotMask::with_capacity(self.samplers.len()),
        };
        core::mem::swap(&mut self.dirty, &mut taken);
        self.census.emitted = self.census.emitted + taken.len();
        taken
    }

    /// Everything the driver believed is gone: a new command buffer, or a
    /// pipeline layout incompatible with the previous one.
    ///
    /// Every bound slot becomes dirty, and what was dirty stays so. Unbound
    /// slots do not become dirty, because there is nothing to write for them.
    pub fn disturb_all(&mut self)
        requires
            old(self).wf(),
            old(self)@.census.disturbances < usize::MAX,
        ensures
            final(self).wf(),
            final(self)@ == old(self)@.disturbed(),
    {
        self.census.disturbances = self.census.disturbances + 1;
        mark_bound(self.buffers.as_slice(), &mut self.dirty.buffers);
        mark_bound(self.textures.as_slice(), &mut self.dirty.textures);
        mark_bound(self.samplers.as_slice(), &mut self.dirty.samplers);
        proof {
            assert(self@.buffers.dirty =~= old(self)@.disturbed().buffers.dirty);
            assert(self@.textures.dirty =~= old(self)@.disturbed().textures.dirty);
            assert(self@.samplers.dirty =~= old(self)@.disturbed().samplers.dirty);
        }
    }

    /// Forget every binding as well as every belief about them.
    ///
    /// For a semantic reset, where the objects the slots named are gone. Not
    /// the same as [`Self::disturb_all`], which keeps the contents because the
    /// guest has not unbound anything.
    pub fn reset(&mut self)
        requires
            old(self).wf(),
        ensures
            final(self).wf(),
            final(self)@ == old(self)@.reset(),
    {
        unbind_all(&mut self.buffers);
        unbind_all(&mut self.textures);
        unbind_all(&mut self.samplers);
        self.dirty.buffers.clear();
        self.dirty.textures.clear();
        self.dirty.samplers.clear();
        proof {
            assert(self@.buffers.held =~= old(self)@.reset().buffers.held);
            assert(self@.textures.held =~= old(self)@.reset().textures.held);
            assert(self@.samplers.held =~= old(self)@.reset().samplers.held);
        }
    }
}

/// Unbind every slot.
fn unbind_all<T>(slots: &mut Vec<Option<T>>)
    ensures
        final(slots)@.len() == old(slots)@.len(),
        forall|i: int| 0 <= i < final(slots)@.len() ==> final(slots)@[i] is None,
{
    let mut slot: usize = 0;
    while slot < slots.len()
        invariant
            slot <= slots.len(),
            slots@.len() == old(slots)@.len(),
            forall|i: int| 0 <= i < slot ==> slots@[i] is None,
        decreases slots.len() - slot,
    {
        slots[slot] = None;
        slot += 1;
    }
}

/// Add every bound slot to `mask`, keeping what it already holds.
///
/// A union and not a replacement. A slot the guest unbound since the last
/// emission is dirty and not bound, so a mask built from the bound set alone
/// would clear it, and the emission that followed would leave the unbound slot
/// naming the resource the guest just released.
///
/// A word at a time, so the cost is the same as writing the whole mask.
fn mark_bound<T>(slots: &[Option<T>], mask: &mut SlotMask)
    requires
        old(mask).wf(),
    ensures
        final(mask).wf(),
        final(mask).room() == if old(mask).room() < room_for(slots@.len() as int) {
            room_for(slots@.len() as int)
        } else {
            old(mask).room()
        },
        forall|slot: int| #[trigger]
            final(mask)@.contains(slot) <==> old(mask)@.contains(slot) || (0 <= slot < slots@.len()
                && slots@[slot] is Some),
{
    mask.reserve(slots.len());
    let ghost before = mask.words@;
    let count: usize = slots.len();
    let mut index: usize = 0;
    let mut start: usize = 0;
    while start < count
        invariant
            mask.words@.len() == before.len(),
            mask.wf(),
            count == slots@.len(),
            before.len() >= words_for(count as int),
            start == if 64 * index <= count { 64 * index } else { count as int },
            forall|s: int| #[trigger]
                held(mask.words@, s) <==> held(before, s) || (0 <= s < start && slots@[s] is Some),
        decreases count - start,
    {
        let width: usize = if count - start < 64 { count - start } else { 64 };
        let mut bound: u64 = 0;
        let mut at: usize = 0;
        proof {
            lemma_zero_holds_no_bit();
        }
        while at < width
            invariant
                at <= width <= 64,
                start + width <= count,
                count == slots@.len(),
                forall|i: int| #[trigger]
                    bit(bound, i) <==> 0 <= i < at && slots@[start + i] is Some,
            decreases width - at,
        {
            let ghost gathered = bound;
            if slots[start + at].is_some() {
                let single: u64 = 1u64 << (at as u64);
                proof {
                    lemma_single(at as u64);
                    lemma_union(gathered, single);
                }
                bound = bound | single;
            }
            assert forall|i: int| #[trigger] bit(bound, i) <==> 0 <= i < at + 1
                && slots@[start + i] is Some by {
                assert(bit(gathered, i) <==> 0 <= i < at && slots@[start + i] is Some);
            }
            at += 1;
        }
        let ghost walked = mask.words@;
        proof {
            lemma_union(walked[index as int], bound);
        }
        mask.words[index] = mask.words[index] | bound;
        proof {
            assert forall|s: int| #[trigger]
                held(mask.words@, s) <==> held(before, s) || (0 <= s < start + width
                    && slots@[s] is Some) by {
                assert(held(walked, s) <==> held(before, s) || (0 <= s < start
                    && slots@[s] is Some));
                if 0 <= s < 64 * before.len() && s / 64 == index {
                    assert(s % 64 == s - start);
                    assert(bit(mask.words@[index as int], s % 64) <==> bit(
                        walked[index as int],
                        s % 64,
                    ) || bit(bound, s % 64));
                }
            }
        }
        start = start + width;
        index += 1;
    }
    proof {
        assert forall|slot: int|
            #[trigger] mask@.contains(slot) <==> old(mask)@.contains(slot) || (0 <= slot
                < slots@.len() && slots@[slot] is Some) by {
            assert(held(mask.words@, slot) <==> held(before, slot) || (0 <= slot < start
                && slots@[slot] is Some));
        }
    }
}

/// One thing done to a table.
pub enum Step {
    BindBuffer(int, Option<BufferBinding>),
    BindTexture(int, Option<ObjectBinding>),
    BindSampler(int, Option<ObjectBinding>),
    Emit,
    Disturb,
    Reset,
}

/// A table beside the descriptor set its emissions are written into.
///
/// A disturbance leaves the set alone: it is a claim about what the driver
/// believes, not about what the set holds. A reset clears both, because the
/// descriptor pool is reset with the table.
pub struct Drawn {
    pub table: TableView,
    pub buffers: Seq<Option<BufferBinding>>,
    pub textures: Seq<Option<ObjectBinding>>,
    pub samplers: Seq<Option<ObjectBinding>>,
}

/// `width` descriptors naming nothing.
pub open spec fn unwritten<T>(width: nat) -> Seq<Option<T>> {
    Seq::new(width, |i: int| None)
}

/// The descriptors after the dirty slots of `class` were written into them.
pub open spec fn rewritten<T>(written: Seq<Option<T>>, class: ClassView<T>) -> Seq<Option<T>> {
    Seq::new(
        written.len(),
        |i: int| if class.dirty.contains(i) { class.held[i] } else { written[i] },
    )
}

/// Every slot that owes no write already holds what the guest bound.
pub open spec fn agrees<T>(written: Seq<Option<T>>, class: ClassView<T>) -> bool {
    &&& written.len() == class.held.len()
    &&& forall|i: int|
        0 <= i < written.len() && !class.dirty.contains(i) ==> #[trigger] written[i]
            == class.held[i]
}

impl Drawn {
    /// A fresh table beside an empty descriptor set of the same widths.
    pub open spec fn fresh(buffers: nat, textures: nat, samplers: nat) -> Drawn {
        Drawn {
            table: TableView::fresh(buffers, textures, samplers),
            buffers: unwritten(buffers),
            textures: unwritten(textures),
            samplers: unwritten(samplers),
        }
    }

    /// Every slot that owes no write already holds what the guest bound.
    pub open spec fn agrees(self) -> bool {
        &&& self.table.wf()
        &&& agrees(self.buffers, self.table.buffers)
        &&& agrees(self.textures, self.table.textures)
        &&& agrees(self.samplers, self.table.samplers)
    }

    /// The descriptor set holds exactly what the guest bound.
    pub open spec fn set_is_what_the_guest_bound(self) -> bool {
        &&& self.buffers == self.table.buffers.held
        &&& self.textures == self.table.textures.held
        &&& self.samplers == self.table.samplers.held
    }

    /// The table and the set after one step.
    pub open spec fn step(self, step: Step) -> Drawn {
        match step {
            Step::BindBuffer(slot, binding) => Drawn {
                table: self.table.bind_buffer(slot, binding),
                ..self
            },
            Step::BindTexture(slot, binding) => Drawn {
                table: self.table.bind_texture(slot, binding),
                ..self
            },
            Step::BindSampler(slot, binding) => Drawn {
                table: self.table.bind_sampler(slot, binding),
                ..self
            },
            Step::Emit => Drawn {
                table: self.table.emitted(),
                buffers: rewritten(self.buffers, self.table.buffers),
                textures: rewritten(self.textures, self.table.textures),
                samplers: rewritten(self.samplers, self.table.samplers),
            },
            Step::Disturb => Drawn { table: self.table.disturbed(), ..self },
            Step::Reset => Drawn {
                table: self.table.reset(),
                buffers: unwritten(self.buffers.len()),
                textures: unwritten(self.textures.len()),
                samplers: unwritten(self.samplers.len()),
            },
        }
    }

    /// The table and the set after a history of steps.
    pub open spec fn run(self, steps: Seq<Step>) -> Drawn
        decreases steps.len(),
    {
        if steps.len() == 0 {
            self
        } else {
            self.run(steps.drop_last()).step(steps.last())
        }
    }
}

/// How many of `steps` are binds.
pub open spec fn binds(steps: Seq<Step>) -> nat
    decreases steps.len(),
{
    if steps.len() == 0 {
        0
    } else {
        binds(steps.drop_last()) + match steps.last() {
            Step::BindBuffer(_, _) | Step::BindTexture(_, _) | Step::BindSampler(_, _) => 1nat,
            _ => 0nat,
        }
    }
}

/// Every step keeps the set agreeing with the guest on the slots that owe no
/// write.
pub proof fn law_every_step_keeps_the_set_agreeing(drawn: Drawn, step: Step)
    requires
        drawn.agrees(),
    ensures
        drawn.step(step).agrees(),
{
}

/// No history of binds, emissions, disturbances and resets leaves a slot
/// reported clean whose descriptor is not what the guest bound.
pub proof fn law_no_history_leaves_a_clean_slot_stale(
    buffers: nat,
    textures: nat,
    samplers: nat,
    steps: Seq<Step>,
)
    ensures
        Drawn::fresh(buffers, textures, samplers).run(steps).agrees(),
    decreases steps.len(),
{
    if steps.len() > 0 {
        law_no_history_leaves_a_clean_slot_stale(buffers, textures, samplers, steps.drop_last());
        law_every_step_keeps_the_set_agreeing(
            Drawn::fresh(buffers, textures, samplers).run(steps.drop_last()),
            steps.last(),
        );
    }
}

/// After an emission the set holds exactly what the guest bound, and the table
/// owes nothing more.
pub proof fn law_an_emission_makes_the_set_what_the_guest_bound(drawn: Drawn)
    requires
        drawn.agrees(),
    ensures
        drawn.step(Step::Emit).set_is_what_the_guest_bound(),
        drawn.step(Step::Emit).table.dirty() == DirtyView::empty(),
        drawn.step(Step::Emit).table.emitted().dirty() == DirtyView::empty(),
        drawn.step(Step::Emit).table.buffers.held == drawn.table.buffers.held,
        drawn.step(Step::Emit).table.textures.held == drawn.table.textures.held,
        drawn.step(Step::Emit).table.samplers.held == drawn.table.samplers.held,
{
    let after = drawn.step(Step::Emit);
    assert(after.buffers =~= after.table.buffers.held);
    assert(after.textures =~= after.table.textures.held);
    assert(after.samplers =~= after.table.samplers.held);
}

/// A clean table needs no emission: the set already holds what the guest
/// bound.
pub proof fn law_a_clean_table_already_agrees(drawn: Drawn)
    requires
        drawn.agrees(),
        drawn.table.dirty() == DirtyView::empty(),
    ensures
        drawn.set_is_what_the_guest_bound(),
{
    assert(drawn.table.dirty().buffers == Set::<int>::empty());
    assert(drawn.buffers =~= drawn.table.buffers.held);
    assert(drawn.textures =~= drawn.table.textures.held);
    assert(drawn.samplers =~= drawn.table.samplers.held);
}

/// A bind of the value already there, in any class, changes no slot and dirties
/// none.
pub proof fn law_a_redundant_bind_dirties_nothing(
    table: TableView,
    slot: int,
    buffer: Option<BufferBinding>,
    object: Option<ObjectBinding>,
)
    ensures
        0 <= slot < table.buffers.held.len() && table.buffers.held[slot] == buffer
            ==> table.bind_buffer(slot, buffer).dirty() == table.dirty(),
        0 <= slot < table.textures.held.len() && table.textures.held[slot] == object
            ==> table.bind_texture(slot, object).dirty() == table.dirty(),
        0 <= slot < table.samplers.held.len() && table.samplers.held[slot] == object
            ==> table.bind_sampler(slot, object).dirty() == table.dirty(),
{
}

/// A disturbance keeps every binding, keeps every write already owed, and owes
/// nothing for a slot that is neither bound nor dirty.
pub proof fn law_a_disturbance_is_a_union<T>(class: ClassView<T>, slot: int)
    requires
        class.wf(),
    ensures
        class.disturbed().held == class.held,
        class.disturbed().dirty.contains(slot) <==> class.dirty.contains(slot) || class.at(
            slot,
        ) is Some,
        class.disturbed().disturbed() == class.disturbed(),
{
    assert(class.disturbed().disturbed().dirty =~= class.disturbed().dirty);
}

/// Every bind of a history lands in exactly one of the three census answers.
pub proof fn law_every_bind_is_counted_once(
    buffers: nat,
    textures: nat,
    samplers: nat,
    steps: Seq<Step>,
)
    requires
        binds(steps) <= usize::MAX,
    ensures
        ({
            let census = Drawn::fresh(buffers, textures, samplers).run(steps).table.census;
            census.changed + census.redundant + census.ignored == binds(steps)
        }),
    decreases steps.len(),
{
    if steps.len() > 0 {
        law_every_bind_is_counted_once(buffers, textures, samplers, steps.drop_last());
    }
}

/// Binding a buffer slot of the table makes the slot hold exactly what was
/// passed, whatever it held before. Every other slot of every class holds what
/// it held, and the slot owes a write where the binding differs from the one it
/// replaced.
pub proof fn law_a_buffer_slot_holds_what_was_passed(
    table: &mut BindingTable,
    slot: usize,
    binding: Option<BufferBinding>,
    changed: bool,
    other: usize,
    held: Option<BufferBinding>,
    kept: Option<BufferBinding>,
)
    requires
        old(table).wf(),
        call_ensures(BindingTable::bind_buffer, (table, slot, binding), changed),
        call_ensures(BindingTable::buffer, (&*final(table), slot), held),
        call_ensures(BindingTable::buffer, (&*final(table), other), kept),
    ensures
        ({
            let before = old(table)@;
            let after = final(table)@;
            let width = before.buffers.held.len();
            &&& held == if slot < width {
                binding
            } else {
                None
            }
            &&& other != slot ==> kept == if other < width {
                before.buffers.held[other as int]
            } else {
                None
            }
            &&& changed <==> slot < width && before.buffers.held[slot as int] != binding
            &&& after.buffers.held.len() == width
            &&& after.buffers.dirty.contains(other as int) <==> before.buffers.dirty.contains(
                other as int,
            ) || (other == slot && changed)
            &&& after.textures == before.textures
            &&& after.samplers == before.samplers
        }),
{
}

/// Binding a texture slot of the table makes the slot hold exactly what was
/// passed, whatever it held before. Every other slot of every class holds what
/// it held, and the slot owes a write where the binding differs from the one it
/// replaced.
pub proof fn law_a_texture_slot_holds_what_was_passed(
    table: &mut BindingTable,
    slot: usize,
    binding: Option<ObjectBinding>,
    changed: bool,
    other: usize,
    held: Option<ObjectBinding>,
    kept: Option<ObjectBinding>,
)
    requires
        old(table).wf(),
        call_ensures(BindingTable::bind_texture, (table, slot, binding), changed),
        call_ensures(BindingTable::texture, (&*final(table), slot), held),
        call_ensures(BindingTable::texture, (&*final(table), other), kept),
    ensures
        ({
            let before = old(table)@;
            let after = final(table)@;
            let width = before.textures.held.len();
            &&& held == if slot < width {
                binding
            } else {
                None
            }
            &&& other != slot ==> kept == if other < width {
                before.textures.held[other as int]
            } else {
                None
            }
            &&& changed <==> slot < width && before.textures.held[slot as int] != binding
            &&& after.textures.held.len() == width
            &&& after.textures.dirty.contains(other as int) <==> before.textures.dirty.contains(
                other as int,
            ) || (other == slot && changed)
            &&& after.buffers == before.buffers
            &&& after.samplers == before.samplers
        }),
{
}

/// Binding a sampler slot of the table makes the slot hold exactly what was
/// passed, whatever it held before. Every other slot of every class holds what
/// it held, and the slot owes a write where the binding differs from the one it
/// replaced.
pub proof fn law_a_sampler_slot_holds_what_was_passed(
    table: &mut BindingTable,
    slot: usize,
    binding: Option<ObjectBinding>,
    changed: bool,
    other: usize,
    held: Option<ObjectBinding>,
    kept: Option<ObjectBinding>,
)
    requires
        old(table).wf(),
        call_ensures(BindingTable::bind_sampler, (table, slot, binding), changed),
        call_ensures(BindingTable::sampler, (&*final(table), slot), held),
        call_ensures(BindingTable::sampler, (&*final(table), other), kept),
    ensures
        ({
            let before = old(table)@;
            let after = final(table)@;
            let width = before.samplers.held.len();
            &&& held == if slot < width {
                binding
            } else {
                None
            }
            &&& other != slot ==> kept == if other < width {
                before.samplers.held[other as int]
            } else {
                None
            }
            &&& changed <==> slot < width && before.samplers.held[slot as int] != binding
            &&& after.samplers.held.len() == width
            &&& after.samplers.dirty.contains(other as int) <==> before.samplers.dirty.contains(
                other as int,
            ) || (other == slot && changed)
            &&& after.buffers == before.buffers
            &&& after.textures == before.textures
        }),
{
}

/// The binding a history last passed for a buffer slot since its last reset.
pub open spec fn last_buffer(steps: Seq<Step>, slot: int) -> Option<BufferBinding>
    decreases steps.len(),
{
    if steps.len() == 0 {
        None
    } else {
        match steps.last() {
            Step::BindBuffer(named, binding) if named == slot => binding,
            Step::Reset => None,
            _ => last_buffer(steps.drop_last(), slot),
        }
    }
}

/// Whether a buffer slot was bound to something else, or was bound when its
/// descriptor was lost, since the last emission or reset.
pub open spec fn buffer_moved_on(steps: Seq<Step>, slot: int) -> bool
    decreases steps.len(),
{
    if steps.len() == 0 {
        false
    } else {
        let earlier = steps.drop_last();
        match steps.last() {
            Step::BindBuffer(named, binding) if named == slot => buffer_moved_on(earlier, slot)
                || last_buffer(earlier, slot) != binding,
            Step::Disturb => buffer_moved_on(earlier, slot) || last_buffer(earlier, slot) is Some,
            Step::Emit | Step::Reset => false,
            _ => buffer_moved_on(earlier, slot),
        }
    }
}

/// The binding a history last passed for a texture slot since its last reset.
pub open spec fn last_texture(steps: Seq<Step>, slot: int) -> Option<ObjectBinding>
    decreases steps.len(),
{
    if steps.len() == 0 {
        None
    } else {
        match steps.last() {
            Step::BindTexture(named, binding) if named == slot => binding,
            Step::Reset => None,
            _ => last_texture(steps.drop_last(), slot),
        }
    }
}

/// Whether a texture slot was bound to something else, or was bound when its
/// descriptor was lost, since the last emission or reset.
pub open spec fn texture_moved_on(steps: Seq<Step>, slot: int) -> bool
    decreases steps.len(),
{
    if steps.len() == 0 {
        false
    } else {
        let earlier = steps.drop_last();
        match steps.last() {
            Step::BindTexture(named, binding) if named == slot => texture_moved_on(earlier, slot)
                || last_texture(earlier, slot) != binding,
            Step::Disturb => texture_moved_on(earlier, slot) || last_texture(earlier, slot) is Some,
            Step::Emit | Step::Reset => false,
            _ => texture_moved_on(earlier, slot),
        }
    }
}

/// The binding a history last passed for a sampler slot since its last reset.
pub open spec fn last_sampler(steps: Seq<Step>, slot: int) -> Option<ObjectBinding>
    decreases steps.len(),
{
    if steps.len() == 0 {
        None
    } else {
        match steps.last() {
            Step::BindSampler(named, binding) if named == slot => binding,
            Step::Reset => None,
            _ => last_sampler(steps.drop_last(), slot),
        }
    }
}

/// Whether a sampler slot was bound to something else, or was bound when its
/// descriptor was lost, since the last emission or reset.
pub open spec fn sampler_moved_on(steps: Seq<Step>, slot: int) -> bool
    decreases steps.len(),
{
    if steps.len() == 0 {
        false
    } else {
        let earlier = steps.drop_last();
        match steps.last() {
            Step::BindSampler(named, binding) if named == slot => sampler_moved_on(earlier, slot)
                || last_sampler(earlier, slot) != binding,
            Step::Disturb => sampler_moved_on(earlier, slot) || last_sampler(earlier, slot) is Some,
            Step::Emit | Step::Reset => false,
            _ => sampler_moved_on(earlier, slot),
        }
    }
}

/// After any history, a slot of the table holds the last binding the history
/// passed for it, and nothing since a reset; it owes a write exactly where that
/// moved on since the last emission.
pub proof fn law_a_slot_holds_the_last_binding_passed(
    buffers: nat,
    textures: nat,
    samplers: nat,
    steps: Seq<Step>,
    slot: int,
)
    requires
        0 <= slot,
    ensures
        ({
            let table = Drawn::fresh(buffers, textures, samplers).run(steps).table;
            &&& table.buffers.held.len() == buffers
            &&& table.textures.held.len() == textures
            &&& table.samplers.held.len() == samplers
            &&& slot < buffers ==> table.buffers.held[slot] == last_buffer(steps, slot)
            &&& slot < textures ==> table.textures.held[slot] == last_texture(steps, slot)
            &&& slot < samplers ==> table.samplers.held[slot] == last_sampler(steps, slot)
            &&& table.buffers.dirty.contains(slot) <==> slot < buffers && buffer_moved_on(
                steps,
                slot,
            )
            &&& table.textures.dirty.contains(slot) <==> slot < textures && texture_moved_on(
                steps,
                slot,
            )
            &&& table.samplers.dirty.contains(slot) <==> slot < samplers && sampler_moved_on(
                steps,
                slot,
            )
        }),
    decreases steps.len(),
{
    if steps.len() > 0 {
        law_a_slot_holds_the_last_binding_passed(
            buffers,
            textures,
            samplers,
            steps.drop_last(),
            slot,
        );
    }
}

/// Taking the dirty slots hands over each slot that owes a write and no other,
/// after which none does; no binding changes, and every slot handed over is
/// counted.
pub proof fn law_an_emission_takes_what_is_owed(
    table: &mut BindingTable,
    taken: Dirty,
    slot: int,
)
    requires
        old(table).wf(),
        old(table)@.census.emitted + old(table)@.dirty().count() <= usize::MAX,
        call_ensures(BindingTable::take_dirty, (table,), taken),
    ensures
        ({
            let before = old(table)@;
            let after = final(table)@;
            &&& taken.buffers@.contains(slot) <==> before.buffers.dirty.contains(slot)
            &&& taken.textures@.contains(slot) <==> before.textures.dirty.contains(slot)
            &&& taken.samplers@.contains(slot) <==> before.samplers.dirty.contains(slot)
            &&& !after.buffers.dirty.contains(slot)
            &&& !after.textures.dirty.contains(slot)
            &&& !after.samplers.dirty.contains(slot)
            &&& after.buffers.held == before.buffers.held
            &&& after.textures.held == before.textures.held
            &&& after.samplers.held == before.samplers.held
            &&& after.census.emitted == before.census.emitted + before.buffers.dirty.len()
                + before.textures.dirty.len() + before.samplers.dirty.len()
            &&& after.census.changed == before.census.changed
            &&& after.census.redundant == before.census.redundant
            &&& after.census.ignored == before.census.ignored
            &&& after.census.disturbances == before.census.disturbances
        }),
{
}

/// A disturbance owes a write for every bound slot besides those already owed;
/// a reset unbinds every slot and owes none. Neither changes a table's widths.
pub proof fn law_a_disturbance_keeps_and_a_reset_forgets(table: &mut BindingTable, slot: int)
    requires
        old(table).wf(),
        0 <= slot,
    ensures
        call_ensures(BindingTable::disturb_all, (table,), ()) ==> {
            let before = old(table)@;
            let after = final(table)@;
            &&& after.buffers.held == before.buffers.held
            &&& after.textures.held == before.textures.held
            &&& after.samplers.held == before.samplers.held
            &&& after.buffers.dirty.contains(slot) <==> before.buffers.dirty.contains(slot) || (slot
                < before.buffers.held.len() && before.buffers.held[slot] is Some)
            &&& after.textures.dirty.contains(slot) <==> before.textures.dirty.contains(slot) || (
            slot < before.textures.held.len() && before.textures.held[slot] is Some)
            &&& after.samplers.dirty.contains(slot) <==> before.samplers.dirty.contains(slot) || (
            slot < before.samplers.held.len() && before.samplers.held[slot] is Some)
            &&& before.census.disturbances < usize::MAX ==> after.census == (Census {
                disturbances: (before.census.disturbances + 1) as usize,
                ..before.census
            })
        },
        call_ensures(BindingTable::reset, (table,), ()) ==> {
            let before = old(table)@;
            let after = final(table)@;
            &&& after.buffers.held.len() == before.buffers.held.len()
            &&& after.textures.held.len() == before.textures.held.len()
            &&& after.samplers.held.len() == before.samplers.held.len()
            &&& slot < before.buffers.held.len() ==> after.buffers.held[slot] is None
            &&& slot < before.textures.held.len() ==> after.textures.held[slot] is None
            &&& slot < before.samplers.held.len() ==> after.samplers.held[slot] is None
            &&& !after.buffers.dirty.contains(slot)
            &&& !after.textures.dirty.contains(slot)
            &&& !after.samplers.dirty.contains(slot)
            &&& after.census == before.census
        },
{
}

/// A bind is counted as a change, as redundant or as ignored: a change where it
/// replaces something else, redundant where the slot already held it, ignored
/// past the table.
pub proof fn law_a_bind_is_counted_for_what_it_did(
    table: TableView,
    slot: int,
    buffer: Option<BufferBinding>,
    object: Option<ObjectBinding>,
)
    requires
        0 <= slot,
        table.census.changed < usize::MAX,
        table.census.redundant < usize::MAX,
        table.census.ignored < usize::MAX,
    ensures
        counts_a_bind(
            table.census,
            table.bind_buffer(slot, buffer).census,
            slot < table.buffers.held.len(),
            slot < table.buffers.held.len() && table.buffers.held[slot] == buffer,
        ),
        counts_a_bind(
            table.census,
            table.bind_texture(slot, object).census,
            slot < table.textures.held.len(),
            slot < table.textures.held.len() && table.textures.held[slot] == object,
        ),
        counts_a_bind(
            table.census,
            table.bind_sampler(slot, object).census,
            slot < table.samplers.held.len(),
            slot < table.samplers.held.len() && table.samplers.held[slot] == object,
        ),
{
}

/// One of the three bind counters moved by one, by whether the slot was in the
/// table and whether it already held what was passed; the rest stood still.
pub open spec fn counts_a_bind(before: Census, after: Census, inside: bool, same: bool) -> bool {
    &&& after.changed - before.changed == if inside && !same {
        1int
    } else {
        0int
    }
    &&& after.redundant - before.redundant == if inside && same {
        1int
    } else {
        0int
    }
    &&& after.ignored - before.ignored == if inside {
        0int
    } else {
        1int
    }
    &&& after.emitted == before.emitted
    &&& after.disturbances == before.disturbances
}

/// Every call is the step it is named for: it takes a table from one history to
/// the same history and that step.
pub proof fn law_every_call_is_its_own_step(
    drawn: Drawn,
    table: &mut BindingTable,
    slot: usize,
    buffer: Option<BufferBinding>,
    object: Option<ObjectBinding>,
    changed: bool,
    taken: Dirty,
)
    requires
        old(table)@ == drawn.table,
    ensures
        call_ensures(BindingTable::bind_buffer, (table, slot, buffer), changed) ==> final(table)@
            == drawn.step(Step::BindBuffer(slot as int, buffer)).table,
        call_ensures(BindingTable::bind_texture, (table, slot, object), changed) ==> final(table)@
            == drawn.step(Step::BindTexture(slot as int, object)).table,
        call_ensures(BindingTable::bind_sampler, (table, slot, object), changed) ==> final(table)@
            == drawn.step(Step::BindSampler(slot as int, object)).table,
        call_ensures(BindingTable::take_dirty, (table,), taken) ==> final(table)@ == drawn.step(
            Step::Emit,
        ).table,
        call_ensures(BindingTable::disturb_all, (table,), ()) ==> final(table)@ == drawn.step(
            Step::Disturb,
        ).table,
        call_ensures(BindingTable::reset, (table,), ()) ==> final(table)@ == drawn.step(
            Step::Reset,
        ).table,
{
}

/// A table begins with its own widths, nothing bound and nothing owed.
pub proof fn law_a_table_begins_unbound(
    buffers: usize,
    textures: usize,
    samplers: usize,
    table: BindingTable,
    slot: int,
)
    requires
        call_ensures(BindingTable::new, (buffers, textures, samplers), table),
        0 <= slot,
    ensures
        table@.buffers.held.len() == buffers,
        table@.textures.held.len() == textures,
        table@.samplers.held.len() == samplers,
        slot < buffers ==> table@.buffers.held[slot] is None,
        slot < textures ==> table@.textures.held[slot] is None,
        slot < samplers ==> table@.samplers.held[slot] is None,
        !table@.buffers.dirty.contains(slot),
        !table@.textures.dirty.contains(slot),
        !table@.samplers.dirty.contains(slot),
{
}

/// A slot put into a mask is in it and no other is; what was in it stays, and a
/// cleared mask holds none. The slots handed out are those in the mask, each
/// once and in order, and as many as it says.
pub proof fn law_a_mask_holds_what_was_put_in(
    mask: &mut SlotMask,
    slot: usize,
    other: usize,
    before: bool,
    after: bool,
    empty: bool,
    count: usize,
    slots: Vec<usize>,
)
    requires
        old(mask).wf(),
        call_ensures(SlotMask::contains, (&*old(mask), other), before),
        call_ensures(SlotMask::contains, (&*final(mask), other), after),
        call_ensures(SlotMask::is_empty, (&*final(mask),), empty),
        call_ensures(SlotMask::len, (&*final(mask),), count),
        call_ensures(SlotMask::slots, (&*final(mask),), slots),
    ensures
        call_ensures(SlotMask::insert, (mask, slot), ()) ==> (after <==> before || other == slot)
            && !empty,
        call_ensures(SlotMask::clear, (mask,), ()) ==> !after && empty && slots@.len() == 0,
        slots@.contains(other) <==> after,
        slots@.len() == count,
        slots@.no_duplicates(),
{
    if call_ensures(SlotMask::insert, (mask, slot), ()) {
        assert(final(mask)@.contains(slot as int));
    }
    assert(slots@.no_duplicates()) by {
        assert forall|i: int, j: int|
            0 <= i < slots@.len() && 0 <= j < slots@.len() && i != j implies slots@[i]
            != slots@[j] by {
            if i < j {
                assert(slots@[i] < slots@[j]);
            } else {
                assert(slots@[j] < slots@[i]);
            }
        }
    }
    if slots@.contains(other) {
        let i = choose|i: int| 0 <= i < slots@.len() && slots@[i] == other;
        assert(final(mask)@.contains(slots@[i] as int));
    }
}

} // verus!
