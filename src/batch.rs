//! The sprite batch: a grow-only host buffer holding the frame's sprites in
//! descending pseudo-depth order.
use vstd::prelude::*;
use crate::sprite::{Sprite, anchor_y, scaled_depth};

verus! {

broadcast use vstd::seq_lib::group_to_multiset_ensures;

/// `s` with `x` placed after every element whose depth is at least that of `x`
/// and before the rest; `s` is expected to be in descending depth order.
pub open spec fn insert_by_depth(s: Seq<Sprite>, x: Sprite, h: nat) -> Seq<Sprite>
    decreases s.len(),
{
    if s.len() == 0 {
        seq![x]
    } else if scaled_depth(s.last(), h) >= scaled_depth(x, h) {
        s.push(x)
    } else {
        insert_by_depth(s.drop_last(), x, h).push(s.last())
    }
}

/// The sprites of `s` in descending depth order; sprites of equal depth keep
/// their relative order.
pub open spec fn sort_by_depth(s: Seq<Sprite>, h: nat) -> Seq<Sprite>
    decreases s.len(),
{
    if s.len() == 0 {
        s
    } else {
        insert_by_depth(sort_by_depth(s.drop_last(), h), s.last(), h)
    }
}

/// Every sprite of `s` is at least as deep as every sprite after it.
pub open spec fn depth_descending(s: Seq<Sprite>, h: nat) -> bool {
    forall|i: int, j: int|
        0 <= i < j < s.len() ==> scaled_depth(#[trigger] s[i], h) >= scaled_depth(
            #[trigger] s[j],
            h,
        )
}

proof fn lemma_insert_keeps_sprites(s: Seq<Sprite>, x: Sprite, h: nat)
    ensures
        insert_by_depth(s, x, h).to_multiset() == s.to_multiset().insert(x),
        insert_by_depth(s, x, h).len() == s.len() + 1,
    decreases s.len(),
{
    if s.len() == 0 {
        assert(seq![x] == Seq::<Sprite>::empty().push(x));
    } else if scaled_depth(s.last(), h) >= scaled_depth(x, h) {
    } else {
        lemma_insert_keeps_sprites(s.drop_last(), x, h);
        assert(s == s.drop_last().push(s.last()));
        assert(s.drop_last().to_multiset().insert(x).insert(s.last())
            =~= s.drop_last().to_multiset().insert(s.last()).insert(x));
    }
}

proof fn lemma_insert_lower_bound(s: Seq<Sprite>, x: Sprite, h: nat, lb: int)
    requires
        forall|i: int| 0 <= i < s.len() ==> scaled_depth(#[trigger] s[i], h) >= lb,
        scaled_depth(x, h) >= lb,
    ensures
        forall|i: int|
            0 <= i < insert_by_depth(s, x, h).len() ==> scaled_depth(
                #[trigger] insert_by_depth(s, x, h)[i],
                h,
            ) >= lb,
    decreases s.len(),
{
    if s.len() == 0 {
        assert(insert_by_depth(s, x, h) == seq![x]);
    } else if scaled_depth(s.last(), h) >= scaled_depth(x, h) {
        assert(insert_by_depth(s, x, h) == s.push(x));
    } else {
        lemma_insert_lower_bound(s.drop_last(), x, h, lb);
        assert(insert_by_depth(s, x, h) == insert_by_depth(s.drop_last(), x, h).push(s.last()));
    }
}

proof fn lemma_insert_descending(s: Seq<Sprite>, x: Sprite, h: nat)
    requires
        depth_descending(s, h),
    ensures
        depth_descending(insert_by_depth(s, x, h), h),
    decreases s.len(),
{
    lemma_insert_keeps_sprites(s, x, h);
    if s.len() == 0 {
    } else if scaled_depth(s.last(), h) >= scaled_depth(x, h) {
        let t = s.push(x);
        assert forall|i: int, j: int| 0 <= i < j < t.len() implies scaled_depth(t[i], h)
            >= scaled_depth(t[j], h) by {
            if j == s.len() && i < s.len() - 1 {
                assert(scaled_depth(s[i], h) >= scaled_depth(s[s.len() - 1], h));
            }
        }
    } else {
        let p = s.drop_last();
        let last = s.last();
        lemma_insert_descending(p, x, h);
        assert forall|i: int| 0 <= i < p.len() implies scaled_depth(#[trigger] p[i], h)
            >= scaled_depth(last, h) by {
            assert(scaled_depth(s[i], h) >= scaled_depth(s[s.len() - 1], h));
        }
        lemma_insert_lower_bound(p, x, h, scaled_depth(last, h));
        let u = insert_by_depth(p, x, h);
        let t = u.push(last);
        assert forall|i: int, j: int| 0 <= i < j < t.len() implies scaled_depth(t[i], h)
            >= scaled_depth(t[j], h) by {
            if j == u.len() {
                assert(scaled_depth(u[i], h) >= scaled_depth(last, h));
            }
        }
    }
}

/// The depth order holds the same sprites as its input, each as often, and
/// is in descending depth order.
pub proof fn lemma_sort_by_depth(s: Seq<Sprite>, h: nat)
    ensures
        sort_by_depth(s, h).to_multiset() == s.to_multiset(),
        sort_by_depth(s, h).len() == s.len(),
        depth_descending(sort_by_depth(s, h), h),
    decreases s.len(),
{
    if s.len() != 0 {
        lemma_sort_by_depth(s.drop_last(), h);
        lemma_insert_keeps_sprites(sort_by_depth(s.drop_last(), h), s.last(), h);
        lemma_insert_descending(sort_by_depth(s.drop_last(), h), s.last(), h);
        assert(s == s.drop_last().push(s.last()));
    }
}

/// Puts the first `n` sprites of `v` in descending depth order and leaves the
/// rest of `v` as it is.
fn sort_prefix_by_depth(v: &mut Vec<Sprite>, n: usize, height_resolution: u32)
    requires
        n <= old(v)@.len(),
    ensures
        final(v)@ == sort_by_depth(old(v)@.take(n as int), height_resolution as nat) + old(
            v,
        )@.skip(n as int),
{
    let ghost h = height_resolution as nat;
    let ghost orig = v@;
    let mut i: usize = 0;
    while i < n
        invariant
            n <= orig.len(),
            i <= n,
            h == height_resolution as nat,
            v@.len() == orig.len(),
            v@.take(i as int) == sort_by_depth(orig.take(i as int), h),
            v@.skip(i as int) == orig.skip(i as int),
        decreases n - i,
    {
        let ghost sorted = v@.take(i as int);
        let ghost x = orig[i as int];
        let ghost rest = orig.skip(i + 1);
        proof {
            lemma_sort_by_depth(orig.take(i as int), h);
            assert(v@[i as int] == v@.skip(i as int)[0]);
            assert(orig.take(i + 1).drop_last() == orig.take(i as int));
            assert(orig.skip(i as int) == seq![x] + rest);
            assert(v@ == sorted.take(i as int) + seq![x] + sorted.skip(i as int) + rest) by {
                assert(v@ == v@.take(i as int) + v@.skip(i as int));
            }
        }
        let mut j: usize = i;
        proof {
            assert(sorted.take(i as int) =~= sorted);
            assert(insert_by_depth(sorted, x, h) =~= insert_by_depth(sorted, x, h) + sorted.skip(
                i as int,
            ));
        }
        loop
            invariant
                j <= i < n <= orig.len(),
                h == height_resolution as nat,
                sorted.len() == i,
                v@ == sorted.take(j as int) + seq![x] + sorted.skip(j as int) + rest,
                insert_by_depth(sorted, x, h) == insert_by_depth(sorted.take(j as int), x, h)
                    + sorted.skip(j as int),
            ensures
                v@ == sorted.take(j as int) + seq![x] + sorted.skip(j as int) + rest,
                j == 0 || scaled_depth(sorted[j - 1], h) >= scaled_depth(x, h),
                insert_by_depth(sorted, x, h) == insert_by_depth(sorted.take(j as int), x, h)
                    + sorted.skip(j as int),
                j <= i,
            decreases j,
        {
            if j == 0 {
                break;
            }
            let ghost pre = sorted.take(j as int);
            proof {
                assert(v@[j as int] == x);
                assert(v@[j - 1] == sorted[j - 1]);
            }
            let below = v[j - 1];
            let cur = v[j];
            let below_key = below.depth_key(height_resolution);
            let cur_key = cur.depth_key(height_resolution);
            if below_key >= cur_key {
                break;
            }
            proof {
                assert(pre.drop_last() =~= sorted.take(j - 1));
                assert(pre.last() == sorted[j - 1]);
                assert(insert_by_depth(pre, x, h) == insert_by_depth(sorted.take(j - 1), x, h).push(
                    sorted[j - 1],
                ));
                assert(sorted.skip(j - 1) =~= seq![sorted[j - 1]] + sorted.skip(j as int));
            }
            v[j - 1] = cur;
            v[j] = below;
            j = j - 1;
            proof {
                assert(v@ =~= sorted.take(j as int) + seq![x] + sorted.skip(j as int) + rest);
                assert(insert_by_depth(sorted, x, h) =~= insert_by_depth(
                    sorted.take(j as int),
                    x,
                    h,
                ) + sorted.skip(j as int));
            }
        }
        proof {
            let pre = sorted.take(j as int);
            if j > 0 {
                assert(pre.last() == sorted[j - 1]);
                assert(insert_by_depth(pre, x, h) == pre.push(x));
            } else {
                assert(insert_by_depth(pre, x, h) == seq![x]);
            }
            assert(sort_by_depth(orig.take(i + 1), h) == insert_by_depth(sorted, x, h));
            assert(v@.take(i + 1) =~= insert_by_depth(sorted, x, h));
            assert(v@.skip(i + 1) =~= orig.skip(i + 1));
        }
        i = i + 1;
    }
    proof {
        assert(orig.take(n as int) == orig.take(i as int));
        assert(v@ =~= v@.take(i as int) + v@.skip(i as int));
    }
}


/// Largest number of sprites that the GPU-side batch holds and that the single
/// draw call covers.
pub const MAX_SPRITES: usize = 512;

/// What a sprite batch holds: the half vertical resolution that depths are
/// computed with, the host buffer's slots, and how many of them the current
/// frame uses.
pub ghost struct BatchView {
    pub height_resolution: nat,
    pub slots: Seq<Sprite>,
    pub active: nat,
}

/// The current frame's sprites, in the order they are uploaded.
pub open spec fn active_sprites(b: BatchView) -> Seq<Sprite> {
    b.slots.take(b.active as int)
}

/// The number of slots of the host buffer.
pub open spec fn capacity(b: BatchView) -> nat {
    b.slots.len()
}

/// The part of the frame's sprites that the fixed-size GPU buffer can hold.
pub open spec fn visible_sprites(b: BatchView) -> Seq<Sprite> {
    if b.active <= MAX_SPRITES {
        active_sprites(b)
    } else {
        active_sprites(b).take(MAX_SPRITES as int)
    }
}

/// The batch after the frame's sprites `sprites` were submitted: they fill the
/// first slots in descending depth order, the buffer grows to hold them if it
/// is too small, and slots past them keep what they held.
pub open spec fn submitted(b: BatchView, sprites: Seq<Sprite>) -> BatchView {
    BatchView {
        height_resolution: b.height_resolution,
        slots: sort_by_depth(sprites, b.height_resolution) + if sprites.len() < b.slots.len() {
            b.slots.skip(sprites.len() as int)
        } else {
            Seq::empty()
        },
        active: sprites.len(),
    }
}

/// A host-side buffer of sprite records that is sorted by pseudo-depth each
/// frame and only ever grows.
pub struct SpriteBatcher {
    height_resolution: u32,
    slots: Vec<Sprite>,
    active: usize,
}

impl View for SpriteBatcher {
    type V = BatchView;

    closed spec fn view(&self) -> BatchView {
        BatchView {
            height_resolution: self.height_resolution as nat,
            slots: self.slots@,
            active: self.active as nat,
        }
    }
}

impl SpriteBatcher {
    /// The batch's internal invariant: the active sprites fit in the buffer.
    pub closed spec fn wf(&self) -> bool {
        self.active <= self.slots.len()
    }

    /// An empty batch whose depths use the half vertical resolution
    /// `height_resolution`.
    pub fn new(height_resolution: u32) -> (r: SpriteBatcher)
        ensures
            r.wf(),
            r@ == (BatchView {
                height_resolution: height_resolution as nat,
                slots: Seq::empty(),
                active: 0,
            }),
    {
        SpriteBatcher { height_resolution, slots: Vec::new(), active: 0 }
    }

    /// Copies the frame's sprites into the buffer, growing it when they do not
    /// fit, and orders them by descending pseudo-depth.
    pub fn submit(&mut self, sprites: &[Sprite])
        requires
            old(self).wf(),
        ensures
            final(self).wf(),
            final(self)@ == submitted(old(self)@, sprites@),
            active_sprites(final(self)@) == sort_by_depth(
                sprites@,
                old(self)@.height_resolution,
            ),
            capacity(final(self)@) == if sprites@.len() < capacity(old(self)@) {
                capacity(old(self)@)
            } else {
                sprites@.len()
            },
    {
        let ghost before = self.slots@;
        let ghost h = self.height_resolution;
        let n = sprites.len();
        let mut i: usize = 0;
        while i < n
            invariant
                i <= n == sprites@.len(),
                self.height_resolution == h,
                self.slots@.len() == if i < before.len() {
                    before.len()
                } else {
                    i as nat
                },
                forall|k: int| 0 <= k < i ==> #[trigger] self.slots@[k] == sprites@[k],
                forall|k: int| i <= k < self.slots@.len() ==> #[trigger] self.slots@[k] == before[k],
            decreases n - i,
        {
            if i < self.slots.len() {
                self.slots[i] = sprites[i];
            } else {
                self.slots.push(sprites[i]);
            }
            i = i + 1;
        }
        proof {
            assert(self.slots@.take(n as int) =~= sprites@);
            if n < before.len() {
                assert(self.slots@.skip(n as int) =~= before.skip(n as int));
            } else {
                assert(self.slots@.skip(n as int) =~= Seq::<Sprite>::empty());
            }
        }
        sort_prefix_by_depth(&mut self.slots, n, self.height_resolution);
        self.active = n;
        proof {
            lemma_sort_by_depth(sprites@, self.height_resolution as nat);
            assert(active_sprites(self@) =~= sort_by_depth(sprites@, self.height_resolution as nat));
            assert(self.slots@ =~= submitted(old(self)@, sprites@).slots);
        }
    }

    /// Number of sprites in the current frame.
    pub fn len(&self) -> (r: usize)
        ensures
            r == self@.active,
    {
        self.active
    }

    /// Number of slots of the host buffer.
    pub fn capacity(&self) -> (r: usize)
        ensures
            r == capacity(self@),
    {
        self.slots.len()
    }

    /// The half vertical resolution that depths are computed with.
    pub fn height_resolution(&self) -> (r: u32)
        ensures
            r == self@.height_resolution,
    {
        self.height_resolution
    }

    /// The current frame's sprites in descending depth order.
    pub fn active_sprites(&self) -> (r: Vec<Sprite>)
        requires
            self.wf(),
        ensures
            r@ == active_sprites(self@),
    {
        self.prefix(self.active)
    }

    /// The sprites that go to the GPU buffer: the current frame's sprites in
    /// descending depth order, cut at the buffer's fixed capacity.
    pub fn visible_sprites(&self) -> (r: Vec<Sprite>)
        requires
            self.wf(),
        ensures
            r@ == visible_sprites(self@),
            r@.len() <= MAX_SPRITES,
    {
        let n = if self.active <= MAX_SPRITES {
            self.active
        } else {
            MAX_SPRITES
        };
        let r = self.prefix(n);
        proof {
            if self.active > MAX_SPRITES {
                assert(r@ =~= active_sprites(self@).take(MAX_SPRITES as int));
            }
        }
        r
    }

    fn prefix(&self, n: usize) -> (r: Vec<Sprite>)
        requires
            n <= self.slots@.len(),
        ensures
            r@ == self.slots@.take(n as int),
    {
        let mut r: Vec<Sprite> = Vec::new();
        let mut i: usize = 0;
        while i < n
            invariant
                i <= n <= self.slots@.len(),
                r@ == self.slots@.take(i as int),
            decreases n - i,
        {
            r.push(self.slots[i]);
            i = i + 1;
            proof {
                assert(r@ =~= self.slots@.take(i as int));
            }
        }
        r
    }
}

/// After a submission the batch's active sprites are the submitted ones in
/// depth order, and the buffer holds the larger of its old size and their number.
pub proof fn lemma_active_after_submit(b: BatchView, sprites: Seq<Sprite>)
    ensures
        active_sprites(submitted(b, sprites)) == sort_by_depth(sprites, b.height_resolution),
        capacity(submitted(b, sprites)) == if sprites.len() < b.slots.len() {
            b.slots.len()
        } else {
            sprites.len()
        },
{
    lemma_sort_by_depth(sprites, b.height_resolution);
    assert(active_sprites(submitted(b, sprites)) =~= sort_by_depth(sprites, b.height_resolution));
}

/// Of two sprites on the same layer, the one whose ground anchor lies higher
/// on screen has the strictly smaller pseudo-depth, and after any submission
/// every copy of it comes after every copy of the other in the batch.
pub proof fn lemma_higher_anchor_comes_after(
    batch: BatchView,
    sprites: Seq<Sprite>,
    a: Sprite,
    b: Sprite,
)
    requires
        a.layer == b.layer,
        anchor_y(a) < anchor_y(b),
    ensures
        scaled_depth(a, batch.height_resolution) < scaled_depth(b, batch.height_resolution),
        forall|p: int, q: int|
            0 <= p < sprites.len() && 0 <= q < sprites.len() && #[trigger] active_sprites(
                submitted(batch, sprites),
            )[p] == b && #[trigger] active_sprites(submitted(batch, sprites))[q] == a ==> p < q,
{
    let h = batch.height_resolution;
    lemma_active_after_submit(batch, sprites);
    lemma_sort_by_depth(sprites, h);
    let out = active_sprites(submitted(batch, sprites));
    assert forall|p: int, q: int|
        0 <= p < sprites.len() && 0 <= q < sprites.len() && #[trigger] out[p] == b
            && #[trigger] out[q] == a implies p < q by {
        if q < p {
            assert(scaled_depth(out[q], h) >= scaled_depth(out[p], h));
        }
    }
}

/// Submitting the same sprites yields the same order, whatever the batch held
/// before; in particular submitting them twice in a row yields the same order
/// both times.
pub proof fn lemma_submission_deterministic(b1: BatchView, b2: BatchView, sprites: Seq<Sprite>)
    requires
        b1.height_resolution == b2.height_resolution,
    ensures
        active_sprites(submitted(b1, sprites)) == active_sprites(submitted(b2, sprites)),
        active_sprites(submitted(submitted(b1, sprites), sprites)) == active_sprites(
            submitted(b1, sprites),
        ),
{
    lemma_active_after_submit(b1, sprites);
    lemma_active_after_submit(b2, sprites);
    lemma_active_after_submit(submitted(b1, sprites), sprites);
}

/// The host buffer never shrinks: after a submission of `first` and then one
/// of `second`, it still has room for all of `first`.
pub proof fn lemma_capacity_never_shrinks(b: BatchView, first: Seq<Sprite>, second: Seq<Sprite>)
    ensures
        capacity(submitted(b, first)) >= first.len(),
        capacity(submitted(submitted(b, first), second)) >= capacity(submitted(b, first)),
        capacity(submitted(submitted(b, first), second)) >= first.len(),
{
    lemma_active_after_submit(b, first);
    lemma_active_after_submit(submitted(b, first), second);
}

} // verus!
