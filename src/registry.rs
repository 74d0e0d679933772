use vstd::prelude::*;

verus! {

/// One registered texture: the GPU texture and the sampler that overrides
/// the default one when it is drawn.
pub struct TextureEntry<T, S> {
    pub texture: T,
    pub sampler: Option<S>,
}

/// What `resolve` gives for `handle` over the entries in registration order:
/// handles are 1-based, so `handle` names `entries[handle - 1]`.
pub open spec fn resolve_spec<E>(entries: Seq<E>, handle: int) -> Option<E> {
    if 1 <= handle && handle <= entries.len() {
        Some(entries[handle - 1])
    } else {
        None
    }
}

/// Append-only store of textures, addressed by dense handles starting at 1.
pub struct TextureRegistry<T, S> {
    entries: Vec<TextureEntry<T, S>>,
}

impl<T, S> View for TextureRegistry<T, S> {
    type V = Seq<TextureEntry<T, S>>;

    closed spec fn view(&self) -> Seq<TextureEntry<T, S>> {
        self.entries@
    }
}

impl<T, S> TextureRegistry<T, S> {
    /// An empty registry with room for `capacity` textures before it grows.
    pub fn with_capacity(capacity: usize) -> (r: Self)
        ensures
            r@ == Seq::<TextureEntry<T, S>>::empty(),
    {
        TextureRegistry { entries: Vec::with_capacity(capacity) }
    }

    /// Number of registered textures.
    pub fn len(&self) -> (r: usize)
        ensures
            r == self@.len(),
    {
        self.entries.len()
    }

    /// Stores a texture and returns its handle, one more than the number of
    /// textures registered before it.
    pub fn register(&mut self, texture: T, sampler: Option<S>) -> (handle: i32)
        requires
            old(self)@.len() < i32::MAX,
        ensures
            handle == old(self)@.len() + 1,
            final(self)@ == old(self)@.push(TextureEntry { texture, sampler }),
    {
        let handle = self.entries.len() as i32 + 1;
        self.entries.push(TextureEntry { texture, sampler });
        handle
    }

    /// The entry that `handle` names, or `None` unless `1 <= handle <= len`.
    pub fn resolve(&self, handle: i32) -> (r: Option<&TextureEntry<T, S>>)
        ensures
            match r {
                Some(e) => resolve_spec(self@, handle as int) == Some(*e),
                None => resolve_spec(self@, handle as int) is None,
            },
    {
        if handle > 0 && handle as usize <= self.entries.len() {
            Some(&self.entries[(handle - 1) as usize])
        } else {
            None
        }
    }
}

/// Every registered texture is found under its position in registration
/// order plus one: handles are dense and start at 1.
pub proof fn lemma_handles_dense<E>(entries: Seq<E>)
    ensures
        forall|i: int|
            0 <= i < entries.len() ==> #[trigger] resolve_spec(entries, i + 1) == Some(entries[i]),
{
}

/// Handle 0 and the handle one past the last registered texture name nothing.
pub proof fn lemma_out_of_range_handles<E>(entries: Seq<E>)
    ensures
        resolve_spec(entries, 0) is None,
        resolve_spec(entries, entries.len() + 1 as int) is None,
{
}

/// Registering an entry and resolving the handle it was given returns that
/// entry, sampler included, and leaves every earlier handle as it was.
pub proof fn lemma_register_then_resolve<E>(entries: Seq<E>, e: E)
    ensures
        resolve_spec(entries.push(e), entries.len() + 1 as int) == Some(e),
        forall|h: int|
            1 <= h <= entries.len() ==> #[trigger] resolve_spec(entries.push(e), h)
                == resolve_spec(entries, h),
{
}

} // verus!
