//! Resources loaded from disk, shared by reference count and cached by
//! path: asking twice for a path loads it once.

use vstd::prelude::*;

use crate::text::{decimal, push_decimal};
use crate::time::Instant;

verus! {

/// An I/O failure of the file system.
#[verifier::external_type_specification]
#[verifier::external_body]
pub struct ExIoError(std::io::Error);

/// A failure to decode an image.
#[verifier::external_type_specification]
#[verifier::external_body]
pub struct ExImageError(image::ImageError);

/// Why a resource could not be had.
#[derive(Debug)]
pub enum Error {
    /// The file system failed.
    FsError(std::io::Error),
    /// The file is not a valid image.
    InvalidImage(image::ImageError),
    /// The path does not name a file.
    ResourceNotFound,
    /// The file's extension is not one the manager can load.
    UnsupportedExtension,
}

/// Decoded pixels, 8-bit RGBA, row by row, and the path they were loaded
/// from.
#[derive(Debug)]
pub struct ImageResource {
    pub name: String,
    pub width: u32,
    pub height: u32,
    pub buffer: Vec<u8>,
}

impl ImageResource {
    /// Size of the pixel data, in bytes.
    pub fn size(&self) -> (n: usize)
        ensures
            n == self.buffer.len(),
    {
        self.buffer.len()
    }

    pub fn width(&self) -> (w: u32)
        ensures
            w == self.width,
    {
        self.width
    }

    pub fn height(&self) -> (h: u32)
        ensures
            h == self.height,
    {
        self.height
    }

    /// How the image reads in messages: `"<width>x<height> image"`.
    pub fn describe(&self) -> (s: String)
        ensures
            s@ == decimal(self.width as nat) + "x"@ + decimal(self.height as nat) + " image"@,
    {
        let mut text = String::new();
        push_decimal(&mut text, self.width as usize);
        text.append("x");
        push_decimal(&mut text, self.height as usize);
        text.append(" image");
        text
    }
}

/// What a resource holds.
#[derive(Debug)]
pub enum ResourceData {
    Image(ImageResource),
    Text(String),
}

/// A resource and what is known of when it can be released.
#[derive(Debug)]
struct ResourceDescriptor {
    _idle_cycles: usize,
    _idle_since: Instant,
    data: ResourceData,
}

/// Calls `std::rc::Rc::clone`, which gives another pointer to the same
/// allocation: the same value.
#[verifier::external_body]
fn share<T>(rc: &std::rc::Rc<T>) -> (r: std::rc::Rc<T>)
    ensures
        r == *rc,
{
    std::rc::Rc::clone(rc)
}

/// A loaded resource; cloning it shares the same data.
#[derive(Debug)]
pub struct Resource {
    inner: std::rc::Rc<ResourceDescriptor>,
}

impl Resource {
    /// What the resource holds.
    pub closed spec fn contents(self) -> ResourceData {
        self.inner.data
    }

    /// A resource holding `data`, idle since now.
    pub fn new(data: ResourceData) -> (r: Resource)
        ensures
            r.contents() == data,
    {
        Resource {
            inner: std::rc::Rc::new(
                ResourceDescriptor { _idle_cycles: 0, _idle_since: Instant::now(), data },
            ),
        }
    }

    /// What the resource holds.
    pub fn data(&self) -> (d: &ResourceData)
        ensures
            *d == self.contents(),
    {
        &self.inner.data
    }
}

impl Clone for Resource {
    fn clone(&self) -> (r: Resource)
        ensures
            r == *self,
    {
        Resource { inner: share(&self.inner) }
    }
}

/// Decides, from what the file system says of a path, whether to decode
/// it: only files are loaded, and only PNG and BMP images.
pub fn load_plan(is_file: bool, extension: Option<&str>) -> (r: Result<(), Error>)
    ensures
        !is_file ==> r matches Err(Error::ResourceNotFound),
        is_file && (extension matches Some(e) && (e@ == "png"@ || e@ == "bmp"@)) ==> r is Ok,
        is_file && !(extension matches Some(e) && (e@ == "png"@ || e@ == "bmp"@)) ==> r matches Err(
            Error::UnsupportedExtension,
        ),
{
    if !is_file {
        return Err(Error::ResourceNotFound);
    }
    match extension {
        Some(ext) => {
            let ext = String::from_str(ext);
            let png = String::from_str("png");
            let bmp = String::from_str("bmp");
            if ext == png || ext == bmp {
                Ok(())
            } else {
                Err(Error::UnsupportedExtension)
            }
        },
        None => Err(Error::UnsupportedExtension),
    }
}

/// What the file system says of a path: whether it names a regular file,
/// and the extension of its name, where it has one that is text.
#[derive(Debug)]
pub struct FileInfo {
    pub is_file: bool,
    pub extension: Option<String>,
}

pub open spec fn str_option_view(o: Option<&str>) -> Option<Seq<char>> {
    match o {
        Some(s) => Some(s@),
        None => None,
    }
}

pub open spec fn string_option_view(o: Option<String>) -> Option<Seq<char>> {
    match o {
        Some(s) => Some(s@),
        None => None,
    }
}

/// The format an extension is decoded as: `Some(true)` for PNG,
/// `Some(false)` for BMP, `None` for any other.
pub open spec fn image_format(extension: Option<Seq<char>>) -> Option<bool> {
    match extension {
        Some(e) => if e == "png"@ {
            Some(true)
        } else if e == "bmp"@ {
            Some(false)
        } else {
            None
        },
        None => None,
    }
}

/// What `image` decodes `bytes` to, as a PNG (`png`) or a BMP, converted
/// to 8-bit RGBA: width, height and pixels, or `None` where it fails.
pub uninterp spec fn spec_decode_rgba8(bytes: Seq<u8>, png: bool) -> Option<(u32, u32, Seq<u8>)>;

/// Calls `image::ImageReader::decode` on `bytes` with the format set to PNG
/// or BMP, then `DynamicImage::to_rgba8`, and hands out the width, height
/// and raw pixels. The decoding is named, not stated: it depends on the
/// bytes and the format alone.
#[verifier::external_body]
fn decode_rgba8(bytes: &[u8], png: bool) -> (r: Result<(u32, u32, Vec<u8>), image::ImageError>)
    ensures
        r is Ok <==> spec_decode_rgba8(bytes@, png) is Some,
        r matches Ok((w, h, b)) ==> spec_decode_rgba8(bytes@, png) == Some((w, h, b@)),
        r matches Ok((w, h, b)) ==> b@.len() == 4 * w * h,
{
    let format = if png { image::ImageFormat::Png } else { image::ImageFormat::Bmp };
    let reader = image::ImageReader::with_format(std::io::Cursor::new(bytes), format);
    let pixels = reader.decode()?.to_rgba8();
    Ok((pixels.width(), pixels.height(), pixels.into_raw()))
}

/// Whether `data` is the image named `name` of `width` by `height` pixels
/// `pixels`.
pub open spec fn holds_image(
    data: ResourceData,
    name: Seq<char>,
    width: u32,
    height: u32,
    pixels: Seq<u8>,
) -> bool {
    &&& data matches ResourceData::Image(image)
    &&& image.name@ == name
    &&& image.width == width
    &&& image.height == height
    &&& image.buffer@ == pixels
}

/// What loading gives once the bytes were read: the read's failure, the
/// decoder's, or the decoded image named `name`, four bytes a pixel.
pub open spec fn decode_outcome(
    name: Seq<char>,
    png: bool,
    bytes: Result<Vec<u8>, std::io::Error>,
    r: Result<Resource, Error>,
) -> bool {
    match bytes {
        Err(e) => r matches Err(Error::FsError(x)) && x == e,
        Ok(b) => match spec_decode_rgba8(b@, png) {
            None => r matches Err(Error::InvalidImage(_)),
            Some(decoded) => r matches Ok(res) && holds_image(
                res.contents(),
                name,
                decoded.0,
                decoded.1,
                decoded.2,
            ) && decoded.2.len() == 4 * decoded.0 * decoded.1,
        },
    }
}

/// What loading the file `path` below `base` gives: not a file, an
/// extension other than `png` and `bmp`, or else what `read` gave,
/// decoded.
pub open spec fn image_outcome<R: FnOnce(&'static str, &str) -> Result<Vec<u8>, std::io::Error>>(
    base: &'static str,
    path: &str,
    is_file: bool,
    extension: Option<Seq<char>>,
    read: R,
    r: Result<Resource, Error>,
) -> bool {
    if !is_file {
        r matches Err(Error::ResourceNotFound)
    } else {
        match image_format(extension) {
            None => r matches Err(Error::UnsupportedExtension),
            Some(png) => exists|bytes: Result<Vec<u8>, std::io::Error>|
                #[trigger] read.ensures((base, path), bytes) && decode_outcome(path@, png, bytes, r),
        }
    }
}

/// What `get` gives for a path it has not cached: the failure of `stat`,
/// or what loading gives for what `stat` reported.
pub open spec fn stat_outcome<R: FnOnce(&'static str, &str) -> Result<Vec<u8>, std::io::Error>>(
    base: &'static str,
    path: &str,
    info: Result<FileInfo, std::io::Error>,
    read: R,
    r: Result<Resource, Error>,
) -> bool {
    match info {
        Err(e) => r matches Err(Error::FsError(x)) && x == e,
        Ok(file) => image_outcome(base, path, file.is_file, string_option_view(file.extension), read, r),
    }
}

/// Loads the image file `path` below `base`, of which the file system said
/// whether it is a file and what its extension is: only PNG and BMP files
/// are read, with `read`, and decoded to 8-bit RGBA.
pub fn load_image<R>(
    base: &'static str,
    path: &str,
    is_file: bool,
    extension: Option<&str>,
    read: R,
) -> (r: Result<Resource, Error>) where
    R: FnOnce(&'static str, &str) -> Result<Vec<u8>, std::io::Error>,

    requires
        read.requires((base, path)),
    ensures
        image_outcome(base, path, is_file, str_option_view(extension), read, r),
{
    proof {
        reveal_strlit("png");
        reveal_strlit("bmp");
    }
    match load_plan(is_file, extension) {
        Err(error) => Err(error),
        Ok(()) => {
            let png = match extension {
                Some(e) => {
                    let e = String::from_str(e);
                    let png_text = String::from_str("png");
                    e == png_text
                },
                None => false,
            };
            match read(base, path) {
                Err(error) => Err(Error::FsError(error)),
                Ok(bytes) => match decode_rgba8(bytes.as_slice(), png) {
                    Ok((width, height, buffer)) => {
                        let name = String::from_str(path);
                        let image = ImageResource { name, width, height, buffer };
                        Ok(Resource::new(ResourceData::Image(image)))
                    },
                    Err(error) => Err(Error::InvalidImage(error)),
                },
            }
        },
    }
}

/// The cache as a map from path to resource.
pub open spec fn cache_map(entries: Seq<(String, Resource)>) -> Map<Seq<char>, Resource>
    decreases entries.len(),
{
    if entries.len() == 0 {
        Map::empty()
    } else {
        cache_map(entries.drop_last()).insert(entries.last().0@, entries.last().1)
    }
}

/// No path is cached twice.
pub open spec fn unique_paths(entries: Seq<(String, Resource)>) -> bool {
    forall|i: int, j: int|
        0 <= i < entries.len() && 0 <= j < entries.len() && i != j ==> entries[i].0@
            != entries[j].0@
}

proof fn lemma_cache_map(entries: Seq<(String, Resource)>)
    requires
        unique_paths(entries),
    ensures
        forall|k: Seq<char>|
            #[trigger] cache_map(entries).contains_key(k) <==> exists|i: int|
                0 <= i < entries.len() && entries[i].0@ == k,
        forall|i: int|
            0 <= i < entries.len() ==> cache_map(entries)[#[trigger] entries[i].0@]
                == entries[i].1,
    decreases entries.len(),
{
    if entries.len() > 0 {
        let rest = entries.drop_last();
        assert(unique_paths(rest));
        lemma_cache_map(rest);
        assert forall|k: Seq<char>| #[trigger] cache_map(entries).contains_key(k) <==> exists|i: int|
            0 <= i < entries.len() && entries[i].0@ == k by {
            if k == entries.last().0@ {
                assert(entries[entries.len() - 1].0@ == k);
            } else {
                if cache_map(entries).contains_key(k) {
                    assert(cache_map(rest).contains_key(k));
                    let i = choose|i: int| 0 <= i < rest.len() && rest[i].0@ == k;
                    assert(rest[i] == entries[i]);
                    assert(entries[i].0@ == k);
                }
                if exists|i: int| 0 <= i < entries.len() && entries[i].0@ == k {
                    let i = choose|i: int| 0 <= i < entries.len() && entries[i].0@ == k;
                    assert(i != entries.len() - 1);
                    assert(rest[i] == entries[i]);
                    assert(cache_map(rest).contains_key(k));
                }
            }
        }
        assert forall|i: int| 0 <= i < entries.len() implies cache_map(
            entries,
        )[#[trigger] entries[i].0@] == entries[i].1 by {
            if i < entries.len() - 1 {
                assert(rest[i] == entries[i]);
            }
        }
    }
}

/// Loads resources below a base directory and keeps each one it loaded.
pub struct ResourceManager {
    base_path: &'static str,
    _used_memory: usize,
    loaded_resources: Vec<(String, Resource)>,
}

impl ResourceManager {
    pub closed spec fn well_formed(self) -> bool {
        unique_paths(self.loaded_resources@)
    }

    /// The loaded resources, by path.
    pub closed spec fn cache(self) -> Map<Seq<char>, Resource> {
        cache_map(self.loaded_resources@)
    }

    pub closed spec fn base(self) -> Seq<char> {
        self.base_path@
    }

    pub closed spec fn base_dir(self) -> &'static str {
        self.base_path
    }

    /// A manager for the files below `base_path`, with nothing loaded.
    pub fn new(base_path: &'static str) -> (m: ResourceManager)
        ensures
            m.well_formed(),
            m.cache() == Map::<Seq<char>, Resource>::empty(),
            m.base() == base_path@,
    {
        ResourceManager { base_path, _used_memory: 0, loaded_resources: Vec::new() }
    }

    /// The directory the paths are relative to.
    pub fn base_path(&self) -> (b: &'static str)
        ensures
            b@ == self.base(),
    {
        self.base_path
    }

    /// The cached resource for `path`, if it was loaded.
    pub fn cached(&self, path: &str) -> (r: Option<Resource>)
        requires
            self.well_formed(),
        ensures
            self.cache().contains_key(path@) ==> r == Some(self.cache()[path@]),
            !self.cache().contains_key(path@) ==> r is None,
    {
        proof {
            lemma_cache_map(self.loaded_resources@);
        }
        let key = String::from_str(path);
        let mut i: usize = 0;
        while i < self.loaded_resources.len()
            invariant
                key@ == path@,
                self.well_formed(),
                forall|j: int| 0 <= j < i ==> self.loaded_resources[j].0@ != path@,
            decreases self.loaded_resources.len() - i,
        {
            if self.loaded_resources[i].0 == key {
                proof {
                    lemma_cache_map(self.loaded_resources@);
                    assert(self.loaded_resources@[i as int].0@ == path@);
                }
                return Some(self.loaded_resources[i].1.clone());
            }
            i = i + 1;
        }
        proof {
            lemma_cache_map(self.loaded_resources@);
        }
        None
    }

    /// The resource at `path`: the cached one if it was loaded before;
    /// otherwise the image that `load_image` makes of what `stat` and `read`
    /// report of the file at `path` below the base directory, which is
    /// cached when it loaded. A failure is not cached: the next call tries
    /// the file system again.
    pub fn get<S, R>(&mut self, path: &str, stat: S, read: R) -> (r: Result<Resource, Error>) where
        S: FnOnce(&'static str, &str) -> Result<FileInfo, std::io::Error>,
        R: FnOnce(&'static str, &str) -> Result<Vec<u8>, std::io::Error>,

        requires
            old(self).well_formed(),
            !old(self).cache().contains_key(path@) ==> stat.requires((old(self).base_dir(), path))
                && read.requires((old(self).base_dir(), path)),
        ensures
            get_effect(*old(self), path@, r, *final(self)),
            final(self).base() == old(self).base(),
            !old(self).cache().contains_key(path@) ==> exists|info: Result<FileInfo, std::io::Error>|
                #[trigger] stat.ensures((old(self).base_dir(), path), info) && stat_outcome(
                    old(self).base_dir(),
                    path,
                    info,
                    read,
                    r,
                ),
    {
        match self.cached(path) {
            Some(resource) => Ok(resource),
            None => {
                let base = self.base_path;
                let info = stat(base, path);
                let loaded = match info {
                    Err(error) => Err(Error::FsError(error)),
                    Ok(file) => {
                        let extension = match &file.extension {
                            Some(e) => Some(e.as_str()),
                            None => None,
                        };
                        proof {
                            assert(str_option_view(extension) == string_option_view(file.extension));
                        }
                        load_image(base, path, file.is_file, extension, read)
                    },
                };
                match loaded {
                    Ok(resource) => {
                        let kept = resource.clone();
                        let ghost before = self.loaded_resources@;
                        self.loaded_resources.push((String::from_str(path), kept));
                        proof {
                            assert(self.loaded_resources@.drop_last() =~= before);
                            assert forall|i: int, j: int|
                                0 <= i < self.loaded_resources@.len() && 0 <= j
                                    < self.loaded_resources@.len() && i != j implies #[trigger] self.loaded_resources@[i].0@
                                != #[trigger] self.loaded_resources@[j].0@ by {
                                lemma_cache_map(before);
                                if i == before.len() as int {
                                    assert(!cache_map(before).contains_key(path@));
                                    assert(before[j] == self.loaded_resources@[j]);
                                } else if j == before.len() as int {
                                    assert(before[i] == self.loaded_resources@[i]);
                                } else {
                                    assert(before[i] == self.loaded_resources@[i]);
                                    assert(before[j] == self.loaded_resources@[j]);
                                }
                            }
                        }
                        Ok(resource)
                    },
                    Err(error) => Err(error),
                }
            },
        }
    }
}

/// What a call of `get` for `path` does to the manager: a cached path is
/// answered from the cache; otherwise a loaded resource is cached and a
/// failure leaves the cache as it was. The base directory stays.
pub open spec fn get_effect(
    before: ResourceManager,
    path: Seq<char>,
    r: Result<Resource, Error>,
    after: ResourceManager,
) -> bool {
    &&& after.well_formed()
    &&& after.base_dir() == before.base_dir()
    &&& before.cache().contains_key(path) ==> {
        &&& r matches Ok(res) && res == before.cache()[path]
        &&& after.cache() == before.cache()
    }
    &&& !before.cache().contains_key(path) ==> {
        &&& r matches Ok(res) ==> after.cache() == before.cache().insert(path, res)
        &&& r is Err ==> after.cache() == before.cache()
    }
}

/// Asking twice for a path gives, the second time, the very resource the
/// first call gave, from the cache, and leaves the cache as it was.
pub proof fn law_second_get_is_cached(
    first: ResourceManager,
    between: ResourceManager,
    last: ResourceManager,
    path: Seq<char>,
    r1: Result<Resource, Error>,
    r2: Result<Resource, Error>,
)
    requires
        get_effect(first, path, r1, between),
        get_effect(between, path, r2, last),
        r1 is Ok,
    ensures
        between.cache().contains_key(path),
        r2 matches Ok(res2) && r1 matches Ok(res1) && res2 == res1,
        last.cache() == between.cache(),
{
}

/// A failed `get` caches nothing: the path stays out of the cache, so the
/// next `get` for it asks the file system again.
pub proof fn law_failed_get_is_not_cached(
    before: ResourceManager,
    after: ResourceManager,
    path: Seq<char>,
    r: Result<Resource, Error>,
)
    requires
        get_effect(before, path, r, after),
        r is Err,
    ensures
        !after.cache().contains_key(path),
        after.cache() == before.cache(),
        after.base_dir() == before.base_dir(),
{
}

} // verus!
