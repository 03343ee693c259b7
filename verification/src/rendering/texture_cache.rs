use super::renderer_2d::ImageHandle;
use vstd::prelude::*;

verus! {

/// An image that a cache holds, and the name of the file that it came from.
struct CachedTexture {
    filename: String,
    image: ImageHandle,
}

/// The images that were loaded, by the names of their files. An image is
/// loaded once: whoever asks for the file again gets the handle that was made
/// the first time. A handle's `texture` is the place of its image among those
/// that the cache holds, counted from 0 in the order of loading.
pub struct TextureCache {
    cache: Vec<CachedTexture>,
}

/// The image that is kept under `filename` in `entries` from place `from` on,
/// if there is one: the first such.
pub open spec fn lookup_from(entries: Seq<(Seq<char>, ImageHandle)>, filename: Seq<char>, from: int) -> Option<
    ImageHandle,
>
    decreases entries.len() - from,
{
    if from < 0 || from >= entries.len() {
        None
    } else if entries[from].0 == filename {
        Some(entries[from].1)
    } else {
        lookup_from(entries, filename, from + 1)
    }
}

/// The image that is kept under `filename` in `entries`, if there is one.
pub open spec fn lookup(entries: Seq<(Seq<char>, ImageHandle)>, filename: Seq<char>) -> Option<ImageHandle> {
    lookup_from(entries, filename, 0)
}

impl TextureCache {
    #[verifier::type_invariant]
    spec fn well_formed(&self) -> bool {
        &&& forall|i: int| 0 <= i < self.cache@.len() ==> (#[trigger] self.cache@[i]).image.texture == i
        &&& forall|i: int, j: int|
            0 <= i < j < self.cache@.len() ==> (#[trigger] self.cache@[i]).filename@ != (
            #[trigger] self.cache@[j]).filename@
    }

    /// What the cache holds: the names and their images, in the order of
    /// loading.
    pub closed spec fn entries(&self) -> Seq<(Seq<char>, ImageHandle)> {
        Seq::new(self.cache@.len(), |i: int| (self.cache@[i].filename@, self.cache@[i].image))
    }

    /// A cache that holds nothing.
    pub fn new() -> (cache: TextureCache)
        ensures
            cache.entries() == Seq::<(Seq<char>, ImageHandle)>::empty(),
    {
        TextureCache { cache: Vec::new() }
    }

    /// The number of images that the cache holds.
    pub fn len(&self) -> (count: usize)
        ensures
            count == self.entries().len(),
    {
        self.cache.len()
    }

    /// The image that was loaded from `filename`, if it was loaded. Its handle
    /// names a place in the cache.
    pub fn get(&self, filename: &str) -> (image: Option<ImageHandle>)
        ensures
            image == lookup(self.entries(), filename@),
            image matches Some(found) ==> found.texture < self.entries().len(),
    {
        proof {
            use_type_invariant(self);
        }
        let wanted = filename.to_owned();
        let mut i: usize = 0;
        while i < self.cache.len()
            invariant
                i <= self.cache@.len(),
                wanted@ == filename@,
                forall|k: int| 0 <= k < i ==> (#[trigger] self.cache@[k]).filename@ != filename@,
                forall|k: int| 0 <= k < self.cache@.len() ==> (#[trigger] self.cache@[k]).image.texture == k,
            decreases self.cache@.len() - i,
        {
            if self.cache[i].filename == wanted {
                proof {
                    self.lemma_present(filename@, i as int, 0);
                }
                return Some(self.cache[i].image);
            }
            i += 1;
        }
        proof {
            self.lemma_none(filename@, 0);
        }
        None
    }

    /// Takes in the image that was loaded from `filename`, `width` by `height`
    /// pixels, and returns its handle. Where the cache has an image of that
    /// name already, that one stays and it is its handle that is returned.
    pub fn insert(&mut self, filename: &str, width: u32, height: u32) -> (image: ImageHandle)
        ensures
            match lookup(old(self).entries(), filename@) {
                Some(found) => image == found && final(self).entries() == old(self).entries(),
                None => {
                    &&& image == (ImageHandle { texture: old(self).entries().len() as usize, width, height })
                    &&& final(self).entries() == old(self).entries().push((filename@, image))
                },
            },
            lookup(final(self).entries(), filename@) == Some(image),
    {
        proof {
            use_type_invariant(&*self);
        }
        match self.get(filename) {
            Some(found) => found,
            None => {
                let image = ImageHandle { texture: self.cache.len(), width, height };
                proof {
                    self.lemma_absent(filename@, 0);
                }
                let ghost before = self.entries();
                let mut cache: Vec<CachedTexture> = Vec::new();
                core::mem::swap(&mut self.cache, &mut cache);
                cache.push(CachedTexture { filename: filename.to_owned(), image });
                core::mem::swap(&mut self.cache, &mut cache);
                proof {
                    self.lemma_present(filename@, before.len() as int, 0);
                }
                image
            },
        }
    }

    /// A name that stands nowhere in the cache has no image.
    proof fn lemma_none(&self, filename: Seq<char>, from: int)
        requires
            0 <= from <= self.cache@.len(),
            forall|i: int| from <= i < self.cache@.len() ==> (#[trigger] self.cache@[i]).filename@ != filename,
        ensures
            lookup_from(self.entries(), filename, from) is None,
        decreases self.cache@.len() - from,
    {
        if from < self.cache@.len() {
            self.lemma_none(filename, from + 1);
        }
    }

    /// A name without an image stands nowhere in the cache.
    proof fn lemma_absent(&self, filename: Seq<char>, from: int)
        requires
            0 <= from <= self.cache@.len(),
            lookup_from(self.entries(), filename, from) is None,
        ensures
            forall|i: int| from <= i < self.cache@.len() ==> (#[trigger] self.cache@[i]).filename@ != filename,
        decreases self.cache@.len() - from,
    {
        if from < self.cache@.len() {
            self.lemma_absent(filename, from + 1);
        }
    }

    /// A name that stands at one place only has the image of that place.
    proof fn lemma_present(&self, filename: Seq<char>, at: int, from: int)
        requires
            0 <= from <= at < self.cache@.len(),
            self.cache@[at].filename@ == filename,
            forall|i: int| from <= i < at ==> (#[trigger] self.cache@[i]).filename@ != filename,
        ensures
            lookup_from(self.entries(), filename, from) == Some(self.cache@[at].image),
        decreases at - from,
    {
        if from < at {
            self.lemma_present(filename, at, from + 1);
        }
    }
}

} // verus!
