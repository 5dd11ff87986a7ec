//! Snapshots of rendered contents.

use vstd::prelude::*;

verus! {

/// Rendered-to-texture contents cache of one snapshot variant: `None` until it is rendered, then
/// the texture, or `Some(None)` if rendering failed.
pub type SnapshotTexture<T> = Option<Option<T>>;

/// Snapshot of a render. `C` and `B` are normal and blocked-out contents, `O` says where contents
/// are blocked out from, `S` is a size, and `T` is a texture with its geometry.
#[derive(Debug)]
pub struct RenderSnapshot<C, B, O, S, T> {
    /// Contents for a normal render.
    ///
    /// Relative to the geometry.
    pub contents: Vec<C>,
    /// Contents that are not blocked out, but the background is blocked out.
    ///
    /// If `None` then the background doesn't have any blocked-out surfaces, and normal `contents`
    /// can be used instead.
    pub contents_with_blocked_out_bg: Option<Vec<C>>,
    /// Blocked-out contents.
    ///
    /// Relative to the geometry.
    pub blocked_out_contents: Vec<B>,
    /// Where the contents were blocked out from at the time of the snapshot.
    pub block_out_from: Option<O>,
    /// Visual size of the element at the point of the snapshot.
    pub size: S,
    /// Contents rendered into a texture (lazily, unless prebaked).
    pub texture: SnapshotTexture<T>,
    /// Contents with blocked-out bg rendered into a texture (lazily, unless prebaked).
    pub texture_with_blocked_out_bg: SnapshotTexture<T>,
    /// Blocked-out contents rendered into a texture (lazily, unless prebaked).
    pub blocked_out_texture: SnapshotTexture<T>,
}

/// Which of its contents a snapshot shows.
#[derive(Debug, Clone, Copy, PartialEq, Eq, Structural)]
pub enum SnapshotVariant {
    Contents,
    ContentsWithBlockedOutBg,
    BlockedOut,
}

/// `after` is the cache once its contents are rendered: what it was if they were rendered before,
/// and otherwise what `render` makes of the contents.
pub open spec fn baked<C, T, E, F: FnOnce(&Vec<C>) -> Result<T, E>>(
    before: SnapshotTexture<T>,
    after: SnapshotTexture<T>,
    contents: Vec<C>,
    render: F,
) -> bool {
    match before {
        Some(_) => after == before,
        None => exists|r: Result<T, E>|
            {
                &&& #[trigger] call_ensures(render, (&contents,), r)
                &&& after == Some(
                    match r {
                        Ok(texture) => Some(texture),
                        Err(_) => None,
                    },
                )
            },
    }
}

/// Renders contents into a texture, unless they already are.
fn bake<C, T, E, F: FnOnce(&Vec<C>) -> Result<T, E>>(
    cell: &mut SnapshotTexture<T>,
    contents: &Vec<C>,
    render: F,
)
    requires
        *old(cell) is None ==> call_requires(render, (contents,)),
    ensures
        baked(*old(cell), *final(cell), *contents, render),
{
    if cell.is_none() {
        let rendered: Result<T, E> = render(contents);
        *cell = Some(
            match rendered {
                Ok(texture) => Some(texture),
                Err(_) => None,
            },
        );
    }
}

fn baked_texture<T>(cell: &SnapshotTexture<T>) -> (texture: Option<&T>)
    ensures
        match cell {
            Some(Some(baked)) => texture == Some(baked),
            _ => texture is None,
        },
{
    match cell {
        Some(Some(baked)) => Some(baked),
        _ => None,
    }
}

impl<C, B, O, S, T> RenderSnapshot<C, B, O, S, T> {
    /// What is shown on a target that the contents are to be blocked out from is only ever the
    /// blocked-out contents. On other captures, the background is blocked out too if that makes a
    /// difference.
    pub open spec fn variant_spec(self, should_block_out: bool, to_output: bool) -> SnapshotVariant {
        if should_block_out {
            SnapshotVariant::BlockedOut
        } else if !to_output && self.contents_with_blocked_out_bg is Some {
            SnapshotVariant::ContentsWithBlockedOutBg
        } else {
            SnapshotVariant::Contents
        }
    }

    /// Decides which contents are shown on a render target: `should_block_out` says whether the
    /// target is one that the contents are to be blocked out from, and `to_output` whether it is a
    /// regular output.
    pub fn variant(&self, should_block_out: bool, to_output: bool) -> (variant: SnapshotVariant)
        ensures
            variant == self.variant_spec(should_block_out, to_output),
    {
        if should_block_out {
            SnapshotVariant::BlockedOut
        } else if !to_output && self.contents_with_blocked_out_bg.is_some() {
            SnapshotVariant::ContentsWithBlockedOutBg
        } else {
            SnapshotVariant::Contents
        }
    }

    /// Normal contents rendered to a texture.
    pub fn contents_texture<E, F: FnOnce(&Vec<C>) -> Result<T, E>>(&mut self, render: F) -> (texture:
        Option<&T>)
        requires
            old(self).texture is None ==> call_requires(render, (&old(self).contents,)),
        ensures
            baked(old(self).texture, final(self).texture, old(self).contents, render),
            *final(self) == (RenderSnapshot { texture: final(self).texture, ..*old(self) }),
            match final(self).texture {
                Some(Some(shown)) => texture == Some(&shown),
                _ => texture is None,
            },
    {
        bake(&mut self.texture, &self.contents, render);
        baked_texture(&self.texture)
    }

    /// Contents with blocked-out bg rendered to a texture, if they differ from normal contents.
    pub fn contents_with_blocked_out_bg_texture<E, F: FnOnce(&Vec<C>) -> Result<T, E>>(
        &mut self,
        render: F,
    ) -> (texture: Option<&T>)
        requires
            old(self).texture_with_blocked_out_bg is None ==> (
            old(self).contents_with_blocked_out_bg matches Some(contents) ==> call_requires(
                render,
                (&contents,),
            )),
        ensures
            match old(self).contents_with_blocked_out_bg {
                Some(contents) => {
                    &&& baked(
                        old(self).texture_with_blocked_out_bg,
                        final(self).texture_with_blocked_out_bg,
                        contents,
                        render,
                    )
                    &&& *final(self) == (RenderSnapshot {
                        texture_with_blocked_out_bg: final(self).texture_with_blocked_out_bg,
                        ..*old(self)
                    })
                    &&& match final(self).texture_with_blocked_out_bg {
                        Some(Some(shown)) => texture == Some(&shown),
                        _ => texture is None,
                    }
                },
                None => *final(self) == *old(self) && texture is None,
            },
    {
        match &self.contents_with_blocked_out_bg {
            Some(contents) => {
                bake(&mut self.texture_with_blocked_out_bg, contents, render);
            },
            None => {
                return None;
            },
        }
        baked_texture(&self.texture_with_blocked_out_bg)
    }

    /// Blocked-out contents rendered to a texture.
    pub fn blocked_out_texture<E, F: FnOnce(&Vec<B>) -> Result<T, E>>(&mut self, render: F) -> (
    texture: Option<&T>)
        requires
            old(self).blocked_out_texture is None ==> call_requires(
                render,
                (&old(self).blocked_out_contents,),
            ),
        ensures
            baked(
                old(self).blocked_out_texture,
                final(self).blocked_out_texture,
                old(self).blocked_out_contents,
                render,
            ),
            *final(self) == (RenderSnapshot {
                blocked_out_texture: final(self).blocked_out_texture,
                ..*old(self)
            }),
            match final(self).blocked_out_texture {
                Some(Some(shown)) => texture == Some(&shown),
                _ => texture is None,
            },
    {
        bake(&mut self.blocked_out_texture, &self.blocked_out_contents, render);
        baked_texture(&self.blocked_out_texture)
    }

    /// The texture to show on a render target. See [`Self::variant`] for what it holds.
    pub fn texture<E, F: FnOnce(&Vec<C>) -> Result<T, E>, H: FnOnce(&Vec<B>) -> Result<T, E>>(
        &mut self,
        should_block_out: bool,
        to_output: bool,
        render: F,
        render_blocked_out: H,
    ) -> (texture: Option<&T>)
        requires
            forall|contents: Vec<C>| #[trigger] call_requires(render, (&contents,)),
            forall|contents: Vec<B>| #[trigger] call_requires(render_blocked_out, (&contents,)),
        ensures
            match old(self).variant_spec(should_block_out, to_output) {
                SnapshotVariant::BlockedOut => {
                    &&& baked(
                        old(self).blocked_out_texture,
                        final(self).blocked_out_texture,
                        old(self).blocked_out_contents,
                        render_blocked_out,
                    )
                    &&& *final(self) == (RenderSnapshot {
                        blocked_out_texture: final(self).blocked_out_texture,
                        ..*old(self)
                    })
                    &&& match final(self).blocked_out_texture {
                        Some(Some(shown)) => texture == Some(&shown),
                        _ => texture is None,
                    }
                },
                SnapshotVariant::ContentsWithBlockedOutBg => {
                    &&& baked(
                        old(self).texture_with_blocked_out_bg,
                        final(self).texture_with_blocked_out_bg,
                        old(self).contents_with_blocked_out_bg->0,
                        render,
                    )
                    &&& *final(self) == (RenderSnapshot {
                        texture_with_blocked_out_bg: final(self).texture_with_blocked_out_bg,
                        ..*old(self)
                    })
                    &&& match final(self).texture_with_blocked_out_bg {
                        Some(Some(shown)) => texture == Some(&shown),
                        _ => texture is None,
                    }
                },
                SnapshotVariant::Contents => {
                    &&& baked(old(self).texture, final(self).texture, old(self).contents, render)
                    &&& *final(self) == (RenderSnapshot {
                        texture: final(self).texture,
                        ..*old(self)
                    })
                    &&& match final(self).texture {
                        Some(Some(shown)) => texture == Some(&shown),
                        _ => texture is None,
                    }
                },
            },
    {
        match self.variant(should_block_out, to_output) {
            SnapshotVariant::BlockedOut => self.blocked_out_texture(render_blocked_out),
            SnapshotVariant::ContentsWithBlockedOutBg => {
                self.contents_with_blocked_out_bg_texture(render)
            },
            SnapshotVariant::Contents => self.contents_texture(render),
        }
    }
}

/// Contents are rendered at most once: a second request shows what the first one rendered, and it
/// does not try again after a failure.
pub proof fn law_contents_are_rendered_once<
    C,
    T,
    E,
    F: FnOnce(&Vec<C>) -> Result<T, E>,
    H: FnOnce(&Vec<C>) -> Result<T, E>,
>(
    before: SnapshotTexture<T>,
    first: SnapshotTexture<T>,
    second: SnapshotTexture<T>,
    contents: Vec<C>,
    render: F,
    render_again: H,
)
    requires
        baked::<C, T, E, F>(before, first, contents, render),
        baked::<C, T, E, H>(first, second, contents, render_again),
    ensures
        first is Some,
        second == first,
{
}

/// A target that the contents are to be blocked out from is shown nothing but the blocked-out
/// contents. Other outputs are shown the normal contents. Captures are shown the contents with a
/// blocked-out background, if there are any.
pub proof fn law_targets_see_what_they_may<C, B, O, S, T>(snapshot: RenderSnapshot<C, B, O, S, T>)
    ensures
        snapshot.variant_spec(true, true) == SnapshotVariant::BlockedOut,
        snapshot.variant_spec(true, false) == SnapshotVariant::BlockedOut,
        snapshot.variant_spec(false, true) == SnapshotVariant::Contents,
        snapshot.contents_with_blocked_out_bg is Some ==> snapshot.variant_spec(false, false)
            == SnapshotVariant::ContentsWithBlockedOutBg,
        snapshot.contents_with_blocked_out_bg is None ==> snapshot.variant_spec(false, false)
            == SnapshotVariant::Contents,
{
}

/// The first request renders the contents: what is cached is what rendering them gives, and nothing
/// if that fails.
pub proof fn law_first_request_renders_the_contents<
    C,
    T,
    E,
    F: FnOnce(&Vec<C>) -> Result<T, E>,
>(after: SnapshotTexture<T>, contents: Vec<C>, render: F)
    requires
        baked::<C, T, E, F>(None, after, contents, render),
    ensures
        after is Some,
        after matches Some(Some(texture)) ==> call_ensures(
            render,
            (&contents,),
            Ok::<T, E>(texture),
        ),
        after matches Some(None) ==> exists|err: E| #[trigger]
            call_ensures(render, (&contents,), Err::<T, E>(err)),
{
    let r = choose|r: Result<T, E>|
        {
            &&& #[trigger] call_ensures(render, (&contents,), r)
            &&& after == Some(
                match r {
                    Ok(texture) => Some(texture),
                    Err(_) => None,
                },
            )
        };
    if let Err(err) = r {
        assert(call_ensures(render, (&contents,), Err::<T, E>(err)));
    }
}

/// What a render target is shown. One that the contents are to be blocked out from gets the
/// blocked-out contents, and the others are not even rendered for it. Other outputs get the normal
/// contents, and captures those with a blocked-out background if there are any.
pub proof fn law_snapshots_show_what_the_target_may_see<
    C,
    B,
    O,
    S,
    T,
    E,
    F: FnOnce(&Vec<C>) -> Result<T, E>,
    H: FnOnce(&Vec<B>) -> Result<T, E>,
>(
    snapshot: &mut RenderSnapshot<C, B, O, S, T>,
    should_block_out: bool,
    to_output: bool,
    render: F,
    render_blocked_out: H,
    texture: Option<&T>,
)
    requires
        call_ensures(
            RenderSnapshot::<C, B, O, S, T>::texture::<E, F, H>,
            (snapshot, should_block_out, to_output, render, render_blocked_out),
            texture,
        ),
    ensures
        final(snapshot).contents == old(snapshot).contents,
        final(snapshot).blocked_out_contents == old(snapshot).blocked_out_contents,
        should_block_out ==> {
            &&& final(snapshot).texture == old(snapshot).texture
            &&& final(snapshot).texture_with_blocked_out_bg
                == old(snapshot).texture_with_blocked_out_bg
            &&& old(snapshot).blocked_out_texture matches Some(Some(shown)) ==> texture == Some(
                &shown,
            )
            &&& old(snapshot).blocked_out_texture is None ==> (texture matches Some(shown)
                ==> call_ensures(
                render_blocked_out,
                (&old(snapshot).blocked_out_contents,),
                Ok::<T, E>(*shown),
            ))
        },
        !should_block_out ==> final(snapshot).blocked_out_texture == old(snapshot).blocked_out_texture,
        !should_block_out && (to_output || old(snapshot).contents_with_blocked_out_bg is None) ==> {
            &&& final(snapshot).texture_with_blocked_out_bg
                == old(snapshot).texture_with_blocked_out_bg
            &&& old(snapshot).texture matches Some(Some(shown)) ==> texture == Some(&shown)
            &&& old(snapshot).texture is None ==> (texture matches Some(shown) ==> call_ensures(
                render,
                (&old(snapshot).contents,),
                Ok::<T, E>(*shown),
            ))
        },
        !should_block_out && !to_output ==> (
        old(snapshot).contents_with_blocked_out_bg matches Some(contents) ==> {
            &&& final(snapshot).texture == old(snapshot).texture
            &&& old(snapshot).texture_with_blocked_out_bg matches Some(Some(shown)) ==> texture
                == Some(&shown)
            &&& old(snapshot).texture_with_blocked_out_bg is None ==> (texture matches Some(shown)
                ==> call_ensures(render, (&contents,), Ok::<T, E>(*shown)))
        }),
{
}

} // verus!
