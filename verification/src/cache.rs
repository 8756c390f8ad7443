//! A cache for the rasterised static layer of a widget, keyed by the size of
//! the surface it was drawn for. Only the size is compared, never the content:
//! the check costs nothing, and a draw at another size replaces the entry.

use vstd::prelude::*;

verus! {

/// One rendered surface and the size it was rendered for.
pub struct RenderCache<S> {
    pub surface: Option<S>,
    pub width: i32,
    pub height: i32,
}

/// How many of `draws`, made in turn at the given sizes, have to rasterise,
/// when the cache holds a surface of size `held` (or none) before the first
/// and every rasterisation succeeds.
pub open spec fn rasterisations(held: Option<(int, int)>, draws: Seq<(int, int)>) -> nat
    decreases draws.len(),
{
    if draws.len() == 0 {
        0
    } else {
        let before = draws.drop_last();
        let key = if before.len() == 0 {
            held
        } else {
            Some(before.last())
        };
        let miss: nat = if key == Some(draws.last()) {
            0
        } else {
            1
        };
        rasterisations(held, before) + miss
    }
}

/// A borrowed view of an optional value.
pub open spec fn shared<S>(o: &Option<S>) -> Option<&S> {
    match o {
        Some(s) => Some(s),
        None => None,
    }
}

impl<S> RenderCache<S> {
    /// The size that the cached surface was rendered for, if there is one.
    pub open spec fn key(&self) -> Option<(int, int)> {
        if self.surface is Some {
            Some((self.width as int, self.height as int))
        } else {
            None
        }
    }

    /// Whether a draw at `width` by `height` can reuse the cached surface.
    pub open spec fn holds(&self, width: int, height: int) -> bool {
        self.key() == Some((width, height))
    }

    /// An empty cache.
    pub fn new() -> (c: Self)
        ensures
            c.surface is None,
            c.width == -1,
            c.height == -1,
    {
        RenderCache { surface: None, width: -1, height: -1 }
    }

    /// The cached surface, if it was rendered at this size.
    pub fn lookup(&self, width: i32, height: i32) -> (hit: Option<&S>)
        ensures
            self.holds(width as int, height as int) ==> hit == Some(&self.surface->0),
            !self.holds(width as int, height as int) ==> hit is None,
    {
        if self.width == width && self.height == height {
            self.surface.as_ref()
        } else {
            None
        }
    }

    /// Replaces the entry by `surface`, rendered at `width` by `height`.
    pub fn store(&mut self, width: i32, height: i32, surface: S)
        ensures
            final(self).surface == Some(surface),
            final(self).width == width,
            final(self).height == height,
    {
        self.surface = Some(surface);
        self.width = width;
        self.height = height;
    }

    /// Empties the cache.
    pub fn invalidate(&mut self)
        ensures
            final(self).surface is None,
            final(self).width == -1,
            final(self).height == -1,
    {
        self.surface = None;
        self.width = -1;
        self.height = -1;
    }

    /// The surface for a draw at `width` by `height`. A cached surface of that
    /// size is returned as it is and `build` is not called. Otherwise `build`
    /// rasterises a new one, which replaces the entry; where it fails, the
    /// cache is left empty and the caller has to paint without it.
    pub fn get_or_build<F: FnOnce(i32, i32) -> Option<S>>(
        &mut self,
        width: i32,
        height: i32,
        build: F,
    ) -> (out: Option<&S>)
        requires
            !old(self).holds(width as int, height as int) ==> build.requires((width, height)),
        ensures
            old(self).holds(width as int, height as int) ==> *final(self) == *old(self) && out
                == Some(&old(self).surface->0),
            !old(self).holds(width as int, height as int) ==> build.ensures(
                (width, height),
                final(self).surface,
            ) && (final(self).surface is Some ==> final(self).width == width && final(self).height
                == height) && (final(self).surface is None ==> final(self).width == -1
                && final(self).height == -1) && out == shared(&final(self).surface),
    {
        if self.surface.is_some() && self.width == width && self.height == height {
            return self.surface.as_ref();
        }
        match build(width, height) {
            Some(surface) => {
                self.store(width, height, surface);
            },
            None => {
                self.invalidate();
            },
        }
        self.surface.as_ref()
    }
}

/// A cache holds at most one size: what was rendered for one size is reused
/// at that size and at no other.
pub proof fn lemma_holds_one_size<S>(c: RenderCache<S>, w: int, h: int, w2: int, h2: int)
    requires
        c.holds(w, h),
    ensures
        c.holds(w2, h2) <==> (w2 == w && h2 == h),
{
}

/// One draw rasterises unless the cache holds its size.
pub proof fn lemma_first_draw(held: Option<(int, int)>, d: (int, int))
    ensures
        rasterisations(held, seq![d]) == if held == Some(d) {
            0nat
        } else {
            1nat
        },
{
    let one = seq![d];
    assert(one.drop_last() =~= Seq::<(int, int)>::empty());
    assert(one.last() == d);
    reveal_with_fuel(rasterisations, 2);
}

/// After any draws, one more at the size of the last adds no rasterisation,
/// and one more at any other size adds exactly one.
pub proof fn lemma_next_draw(held: Option<(int, int)>, draws: Seq<(int, int)>, d: (int, int))
    requires
        draws.len() > 0,
    ensures
        rasterisations(held, draws.push(d)) == rasterisations(held, draws) + if d == draws.last() {
            0nat
        } else {
            1nat
        },
{
    let all = draws.push(d);
    assert(all.drop_last() =~= draws);
    assert(all.last() == d);
}

/// Two draws at one size on a cache that does not hold it rasterise exactly
/// once; a third draw at another size rasterises again.
pub proof fn lemma_resize_rasterises_again(
    held: Option<(int, int)>,
    d: (int, int),
    other: (int, int),
)
    requires
        held != Some(d),
        other != d,
    ensures
        rasterisations(held, seq![d, d]) == 1,
        rasterisations(held, seq![d, d, other]) == 2,
{
    lemma_first_draw(held, d);
    lemma_next_draw(held, seq![d], d);
    assert(seq![d].push(d) =~= seq![d, d]);
    lemma_next_draw(held, seq![d, d], other);
    assert(seq![d, d].push(other) =~= seq![d, d, other]);
}

} // verus!
